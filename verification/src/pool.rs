use crate::error::DbError;
use vstd::prelude::*;

verus! {

/// Connection settings of the store, read at pool-creation time only and
/// immutable after construction.
pub struct PoolConfig {
    pub host: String,
    pub port: u16,
    pub dbname: String,
    pub user: String,
    pub password: String,
}

/// A live connection pool.
///
/// The pool itself owns and recycles the underlying physical connections;
/// handing logical connections to many concurrent tasks is its own job, and
/// nothing in this library reads into it. Verus therefore treats the handle as
/// opaque; its generic declaration is bounded by an outside trait that cannot
/// be mirrored here, so the handle is held in an opaque struct instead. The
/// caller that performs the (asynchronous) checkout reaches the raw pool
/// through the public field.
#[verifier::external_body]
pub struct PoolHandle {
    pub raw: deadpool_postgres::Pool,
}

/// Relies on `deadpool_postgres::Config::create_pool`: with no URL and no
/// timeouts configured it builds the pool without contacting the database
/// (connections are created lazily) and fails exactly when the database name
/// is empty, which `get_pg_config` rejects before anything else can go wrong.
#[verifier::external_body]
fn build_pool(cfg: &PoolConfig) -> (r: Result<PoolHandle, DbError>)
    ensures
        r is Ok <==> cfg.dbname@.len() > 0,
        r is Err ==> r->Err_0 == DbError::PoolCreation,
{
    let mut c = deadpool_postgres::Config::new();
    c.host = Some(cfg.host.clone());
    c.port = Some(cfg.port);
    c.dbname = Some(cfg.dbname.clone());
    c.user = Some(cfg.user.clone());
    c.password = Some(cfg.password.clone());
    match c.create_pool(None, tokio_postgres::NoTls) {
        Ok(pool) => Ok(PoolHandle { raw: pool }),
        Err(_) => Err(DbError::PoolCreation),
    }
}

/// Abstract state of one pool slot: whether a pool is stored, and how many
/// pools have been created for it so far.
pub ghost struct SlotModel {
    pub has_pool: bool,
    pub created: int,
}

/// The transition a first-use ("ensure") step takes: build a pool only if the
/// slot is empty.
pub open spec fn ensure_step(s: SlotModel) -> SlotModel {
    if s.has_pool {
        s
    } else {
        SlotModel { has_pool: true, created: s.created + 1 }
    }
}

/// The transition a recovery step takes: discard whatever is stored and build
/// exactly one fresh pool.
pub open spec fn recover_step(s: SlotModel) -> SlotModel {
    SlotModel { has_pool: true, created: s.created + 1 }
}

/// `n` ensure steps in a row, as taken by `n` callers that each run the
/// first-use path atomically on the slot.
pub open spec fn ensure_steps(s: SlotModel, n: nat) -> SlotModel
    decreases n,
{
    if n == 0 {
        s
    } else {
        ensure_step(ensure_steps(s, (n - 1) as nat))
    }
}

/// Outcome of one checkout attempt against the stored pool, as reported back
/// by the caller that performed it.
#[derive(Clone, Copy, Debug, PartialEq, Eq, Structural)]
pub enum AcquireEvent {
    Granted,
    Denied,
}

/// What the self-healing acquire path tells its caller to do next.
#[derive(Clone, Copy, Debug, PartialEq, Eq, Structural)]
pub enum AcquireAction {
    /// The checkout succeeded; use the connection.
    Done,
    /// The pool was rebuilt; check out once more from the fresh pool.
    Retry,
}

/// Owns the pool configuration and the lazily created pool, and mediates all
/// access to the slot that stores the pool: callers obtain the handle only
/// through the acquire operations, never by mutating the slot directly.
pub struct PgConnection {
    config: PoolConfig,
    pg_connection: Option<PoolHandle>,
    pools_created: u64,
}

impl PgConnection {
    /// The slot's abstract state.
    pub closed spec fn model(self) -> SlotModel {
        SlotModel { has_pool: self.pg_connection is Some, created: self.pools_created as int }
    }

    /// Internal invariant: a stored pool was created at some point.
    pub closed spec fn wf(self) -> bool {
        self.pg_connection is Some ==> self.pools_created >= 1
    }

    /// The configuration the pool is built from.
    pub closed spec fn spec_config(self) -> PoolConfig {
        self.config
    }

    /// A manager over the given configuration, with no pool yet: the pool is
    /// created on first use.
    pub fn with_config(config: PoolConfig) -> (r: PgConnection)
        ensures
            r.wf(),
            r.spec_config() == config,
            !r.model().has_pool,
            r.model().created == 0,
    {
        PgConnection { config, pg_connection: None, pools_created: 0 }
    }

    /// A manager over the built-in configuration, with no pool yet.
    pub fn new() -> (r: PgConnection)
        ensures
            r.wf(),
            !r.model().has_pool,
            r.model().created == 0,
            r.spec_config().dbname@.len() > 0,
    {
        let config = PgConnection::create_config();
        proof {
            reveal_strlit("notifications_db");
        }
        PgConnection::with_config(config)
    }

    /// The built-in connection settings.
    fn create_config() -> (c: PoolConfig)
        ensures
            c.host@ == "localhost"@,
            c.port == 11001,
            c.dbname@ == "notifications_db"@,
            c.user@ == "local"@,
            c.password@ == "local"@,
    {
        PoolConfig {
            host: "localhost".to_owned(),
            port: 11001,
            dbname: "notifications_db".to_owned(),
            user: "local".to_owned(),
            password: "local".to_owned(),
        }
    }

    /// Whether a pool is currently stored.
    pub fn has_pool(&self) -> (b: bool)
        ensures
            b == self.model().has_pool,
    {
        self.pg_connection.is_some()
    }

    /// How many pools have been created for this slot so far.
    pub fn pools_created(&self) -> (n: u64)
        ensures
            n as int == self.model().created,
    {
        self.pools_created
    }

    /// Discard whatever pool is stored and build exactly one fresh pool from
    /// the configuration. On failure the slot is left exactly as it was and
    /// the failure is reported as a pool-creation error.
    pub fn create_connection(&mut self) -> (r: Result<(), DbError>)
        requires
            old(self).wf(),
            old(self).model().created < u64::MAX,
        ensures
            final(self).wf(),
            final(self).spec_config() == old(self).spec_config(),
            r is Ok <==> old(self).spec_config().dbname@.len() > 0,
            r is Ok ==> final(self).model() == recover_step(old(self).model()),
            r is Err ==> *final(self) == *old(self) && r->Err_0 == DbError::PoolCreation,
    {
        match build_pool(&self.config) {
            Ok(handle) => {
                self.pg_connection = Some(handle);
                self.pools_created = self.pools_created + 1;
                Ok(())
            },
            Err(e) => Err(e),
        }
    }

    /// Build and store a pool only if none exists yet; a stored pool is kept
    /// untouched, so repeated calls create at most one pool.
    pub fn ensure_pool(&mut self) -> (r: Result<(), DbError>)
        requires
            old(self).wf(),
            old(self).model().created < u64::MAX,
        ensures
            final(self).wf(),
            final(self).spec_config() == old(self).spec_config(),
            r is Ok <==> old(self).model().has_pool || old(self).spec_config().dbname@.len()
                > 0,
            r is Ok ==> final(self).model() == ensure_step(old(self).model()),
            r is Err ==> *final(self) == *old(self) && r->Err_0 == DbError::PoolCreation,
    {
        if self.pg_connection.is_some() {
            Ok(())
        } else {
            self.create_connection()
        }
    }

    /// The stored pool, if any, for a caller about to check a connection out.
    pub fn pool_ref(&self) -> (r: Option<&PoolHandle>)
        ensures
            r is Some <==> self.model().has_pool,
    {
        self.pg_connection.as_ref()
    }

    /// The read path's acquire: hand out the stored pool only if one already
    /// exists; never build one. Before any pool was created this is a
    /// connectivity error, never a silent success.
    pub fn pool_for_read(&self) -> (r: Result<&PoolHandle, DbError>)
        ensures
            r is Ok <==> self.model().has_pool,
            r is Err ==> r->Err_0 == DbError::Connectivity,
    {
        match self.pg_connection.as_ref() {
            Some(handle) => Ok(handle),
            None => Err(DbError::Connectivity),
        }
    }

    /// The decision the self-healing acquire path takes after a checkout
    /// attempt: a grant finishes; the first denial discards the pool, builds
    /// exactly one fresh pool and asks the caller to retry; a denial after the
    /// retry gives up with a connectivity error and builds nothing further.
    pub fn acquire_decision(&mut self, retried: bool, ev: AcquireEvent) -> (r: Result<
        AcquireAction,
        DbError,
    >)
        requires
            old(self).wf(),
            old(self).model().created < u64::MAX,
        ensures
            final(self).wf(),
            final(self).spec_config() == old(self).spec_config(),
            ev is Granted ==> r == Ok::<AcquireAction, DbError>(AcquireAction::Done),
            ev is Granted ==> *final(self) == *old(self),
            ev is Denied && retried ==> r == Err::<AcquireAction, DbError>(DbError::Connectivity),
            ev is Denied && retried ==> *final(self) == *old(self),
            ev is Denied && !retried && old(self).spec_config().dbname@.len() > 0 ==> r == Ok::<AcquireAction, DbError>(AcquireAction::Retry),
            ev is Denied && !retried && old(self).spec_config().dbname@.len() > 0 ==> final(self).model() == recover_step(old(self).model()),
            ev is Denied && !retried && old(self).spec_config().dbname@.len() == 0 ==> r == Err::<AcquireAction, DbError>(DbError::PoolCreation),
            ev is Denied && !retried && old(self).spec_config().dbname@.len() == 0 ==> *final(self) == *old(self),
    {
        match ev {
            AcquireEvent::Granted => Ok(AcquireAction::Done),
            AcquireEvent::Denied => {
                if retried {
                    Err(DbError::Connectivity)
                } else {
                    match self.create_connection() {
                        Ok(()) => Ok(AcquireAction::Retry),
                        Err(e) => Err(e),
                    }
                }
            },
        }
    }
}

/// The pools a whole self-healing acquire creates: one ensure step, then one
/// recovery step exactly when the first checkout was denied.
pub open spec fn acquire_outcome(s: SlotModel, first_denied: bool) -> SlotModel {
    if first_denied {
        recover_step(ensure_step(s))
    } else {
        ensure_step(s)
    }
}

/// Pool self-healing: however a self-healing acquire ends, a pool is in place,
/// and exactly one pool beyond the ensure step is created when the first
/// checkout fails — none when it succeeds. No second rebuild ever happens.
pub proof fn lemma_pool_self_healing(s: SlotModel, first_denied: bool)
    ensures
        acquire_outcome(s, first_denied).has_pool,
        first_denied ==> acquire_outcome(s, first_denied).created == ensure_step(s).created + 1,
        !first_denied ==> acquire_outcome(s, first_denied).created == ensure_step(s).created,
{
}

/// Concurrent first-use safety: when no pool exists yet and `n` callers each
/// run the first-use path as an atomic read-modify-write on the slot (the
/// exclusive access every acquire operation demands), exactly one pool is
/// created and stored, not `n`.
pub proof fn lemma_concurrent_first_use(s: SlotModel, n: nat)
    requires
        !s.has_pool,
        n >= 1,
    ensures
        ensure_steps(s, n).has_pool,
        ensure_steps(s, n).created == s.created + 1,
    decreases n,
{
    if n == 1 {
        assert(ensure_steps(s, 1) == ensure_step(ensure_steps(s, 0)));
    } else {
        lemma_concurrent_first_use(s, (n - 1) as nat);
        assert(ensure_steps(s, n) == ensure_step(ensure_steps(s, (n - 1) as nat)));
    }
}

} // verus!
