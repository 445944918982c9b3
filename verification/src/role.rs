use vstd::prelude::*;

verus! {

/// A role record. Read-only from the authentication core's point of view.
/// Timestamps are seconds since the Unix epoch.
#[derive(Clone)]
pub struct Role {
    pub id: i32,
    pub name: String,
    pub description: Option<String>,
    pub created_at: i64,
    pub updated_at: i64,
}

/// The fields needed to insert a fresh role record.
pub struct NewRole {
    pub name: String,
    pub description: Option<String>,
}

impl Role {
    /// Whether this is the administrator role.
    pub fn is_admin(&self) -> (r: bool)
        ensures
            r == (self.name@ == "admin"@),
    {
        self.name == "admin".to_owned()
    }

    /// Whether this is the ordinary user role.
    pub fn is_user(&self) -> (r: bool)
        ensures
            r == (self.name@ == "user"@),
    {
        self.name == "user".to_owned()
    }
}

} // verus!
