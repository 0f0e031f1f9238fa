use vstd::prelude::*;

verus! {

/// One row of the email-notification table, as a structured value.
///
/// The identifier is assigned by the store on creation and is `0` only in an
/// instance that has not been persisted yet; once persisted it is immutable.
#[derive(Debug, PartialEq, Eq)]
pub struct DbENRecord {
    pub id: i32,
    pub title: String,
    pub notification_type: i32,
    pub template: String,
    pub email: String,
    pub pwd: String,
    pub smtp_server: String,
    pub smtp_port: i32,
    pub description: String,
}

/// The two records agree on every field except the identifier.
pub open spec fn same_payload(a: DbENRecord, b: DbENRecord) -> bool {
    &&& a.title@ == b.title@
    &&& a.notification_type == b.notification_type
    &&& a.template@ == b.template@
    &&& a.email@ == b.email@
    &&& a.pwd@ == b.pwd@
    &&& a.smtp_server@ == b.smtp_server@
    &&& a.smtp_port == b.smtp_port
    &&& a.description@ == b.description@
}

impl DbENRecord {
    /// A not-yet-persisted record: the identifier is unset (`0`) and every
    /// other field holds exactly the given value.
    pub fn create_new(
        title: String,
        notification_type: i32,
        template: String,
        email: String,
        pwd: String,
        smtp_server: String,
        smtp_port: i32,
        description: String,
    ) -> (r: DbENRecord)
        ensures
            r.id == 0,
            r.title == title,
            r.notification_type == notification_type,
            r.template == template,
            r.email == email,
            r.pwd == pwd,
            r.smtp_server == smtp_server,
            r.smtp_port == smtp_port,
            r.description == description,
    {
        DbENRecord {
            id: 0,
            title,
            notification_type,
            template,
            email,
            pwd,
            smtp_server,
            smtp_port,
            description,
        }
    }

    /// Whether the two records agree on every field except the identifier.
    pub fn payload_eq(&self, other: &DbENRecord) -> (r: bool)
        ensures
            r == same_payload(*self, *other),
    {
        self.title == other.title && self.notification_type == other.notification_type
            && self.template == other.template && self.email == other.email
            && self.pwd == other.pwd && self.smtp_server == other.smtp_server
            && self.smtp_port == other.smtp_port && self.description == other.description
    }
}

} // verus!
