use vstd::prelude::*;

use crate::email::{is_valid_email, valid_email};

verus! {

/// A student record as the store holds it. Timestamps are seconds since the
/// Unix epoch.
#[derive(Clone)]
pub struct Student {
    pub id: i32,
    pub name: String,
    pub phone: String,
    pub email: String,
    pub course: String,
    pub created_by: Option<i32>,
    pub updated_by: Option<i32>,
    pub created_at: i64,
    pub updated_at: i64,
}

/// The fields needed to insert a fresh student record.
pub struct NewStudent {
    pub name: String,
    pub phone: String,
    pub email: String,
    pub course: String,
}

/// Which input check a student record failed.
#[derive(Clone, Copy, Debug, PartialEq, Eq, Structural)]
pub enum StudentIssue {
    NameLength,
    PhoneLength,
    InvalidEmail,
}

/// A fresh student record is well formed when the name has at least two
/// characters, the phone between ten and fifteen, and the email is
/// syntactically valid.
pub open spec fn valid_new_student(s: NewStudent) -> bool {
    &&& s.name@.len() >= 2
    &&& 10 <= s.phone@.len() && s.phone@.len() <= 15
    &&& valid_email(s.email@)
}

/// The first input check a fresh student record fails, if any: name, then
/// phone, then email.
pub open spec fn student_issue(s: NewStudent) -> Option<StudentIssue> {
    if s.name@.len() < 2 {
        Some(StudentIssue::NameLength)
    } else if !(10 <= s.phone@.len() && s.phone@.len() <= 15) {
        Some(StudentIssue::PhoneLength)
    } else if !valid_email(s.email@) {
        Some(StudentIssue::InvalidEmail)
    } else {
        None
    }
}

impl NewStudent {
    /// Check this record's fields; `Ok` exactly when the record is well
    /// formed, and otherwise the first check it fails.
    pub fn validate(&self) -> (r: Result<(), StudentIssue>)
        ensures
            r matches Ok(u) ==> valid_new_student(*self),
            r matches Err(e) ==> student_issue(*self) == Some(e),
            (r is Ok) == valid_new_student(*self),
    {
        if self.name.as_str().unicode_len() < 2 {
            return Err(StudentIssue::NameLength);
        }
        let phone_len = self.phone.as_str().unicode_len();
        if phone_len < 10 || phone_len > 15 {
            return Err(StudentIssue::PhoneLength);
        }
        if !is_valid_email(self.email.as_str()) {
            return Err(StudentIssue::InvalidEmail);
        }
        Ok(())
    }
}

/// A page request for the student listing, as the HTTP layer hands it over.
pub struct StudentQuery {
    pub page: Option<i64>,
    pub limit: Option<i64>,
}

/// The row offset a page request asks for: pages count from one, with ten
/// rows per page unless the request says otherwise; a product that cannot be
/// represented saturates.
pub open spec fn spec_offset(page: int, limit: int) -> int {
    if page - 1 > i64::MAX || page - 1 < i64::MIN {
        i64::MAX as int
    } else if (page - 1) * limit > i64::MAX || (page - 1) * limit < i64::MIN {
        i64::MAX as int
    } else {
        (page - 1) * limit
    }
}

impl StudentQuery {
    /// The page size in this request, defaulting to ten.
    pub open spec fn spec_limit(&self) -> int {
        match self.limit {
            Some(l) => l as int,
            None => 10,
        }
    }

    /// The page number in this request, defaulting to the first page.
    pub open spec fn spec_page(&self) -> int {
        match self.page {
            Some(p) => p as int,
            None => 1,
        }
    }

    /// The row limit and offset this request asks for.
    pub fn page_window(&self) -> (r: (i64, i64))
        ensures
            r.0 == self.spec_limit(),
            r.1 == spec_offset(self.spec_page(), self.spec_limit()),
    {
        let page: i64 = match self.page {
            Some(p) => p,
            None => 1,
        };
        let limit: i64 = match self.limit {
            Some(l) => l,
            None => 10,
        };
        let offset: i64 = match page.checked_sub(1) {
            Some(pm) => match pm.checked_mul(limit) {
                Some(o) => o,
                None => i64::MAX,
            },
            None => i64::MAX,
        };
        (limit, offset)
    }
}

} // verus!
