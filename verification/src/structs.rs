//! The session record and the revision (code-review) domain model,
//! with the display-URL derivation and the status style lookup.

use vstd::prelude::*;
use vstd::string::*;

use crate::strutil::{i32_to_string, spec_int_str, str_eq};
use crate::FabError;

verus! {

/// A terminal style color. The presentation layer maps each value onto
/// its rendering library's color of the same name.
#[derive(Clone, Copy, Debug, PartialEq, Eq, Structural)]
pub enum Color {
    Black,
    White,
    Red,
    DarkRed,
    Green,
    Yellow,
    DarkYellow,
    Magenta,
    Cyan,
    Blue,
}

/// The persisted session record: instance endpoint, API token and the
/// user's opaque identity.
pub struct FabConfig {
    pub hosted_instance: String,
    pub api_token: String,
    pub phid: String,
}

impl FabConfig {
    /// The session invariant: all three fields non-empty, and the
    /// endpoint normalized to end with `/`.
    pub open spec fn wf(&self) -> bool {
        &&& self.hosted_instance@.len() > 0
        &&& self.hosted_instance@.last() == '/'
        &&& self.api_token@.len() > 0
        &&& self.phid@.len() > 0
    }

    /// Validates a freshly loaded session record. A record that does
    /// not meet the invariant counts as not found, so that the caller
    /// falls back to the bootstrap flow.
    pub fn check(self) -> (r: Result<FabConfig, FabError>)
        ensures
            match r {
                Ok(c) => c == self && c.wf(),
                Err(e) => e is NotFound && !self.wf(),
            },
    {
        let n = self.hosted_instance.as_str().unicode_len();
        if n == 0 {
            return Err(FabError::NotFound);
        }
        if self.hosted_instance.as_str().get_char(n - 1) != '/' {
            return Err(FabError::NotFound);
        }
        if self.api_token.as_str().unicode_len() == 0 {
            return Err(FabError::NotFound);
        }
        if self.phid.as_str().unicode_len() == 0 {
            return Err(FabError::NotFound);
        }
        Ok(self)
    }
}

/// The envelope payload of a revision search: one page of records.
pub struct RevisionData {
    pub data: Vec<Revision>,
}

/// A whole revision-search response.
pub struct RevisionResponse {
    pub result: RevisionData,
}

/// The identity record that the who-am-i endpoint returns.
pub struct UserResponse {
    pub phid: String,
    pub user_ame: String,
}

/// A whole who-am-i response.
pub struct WhoAmIResponse {
    pub result: UserResponse,
}

/// The status of a revision: its display name and whether the revision
/// is closed.
pub struct Status {
    pub name: String,
    pub closed: bool,
}

/// The displayed fields of a revision.
pub struct Fields {
    pub title: String,
    pub status: Status,
}

/// One code-review revision.
pub struct Revision {
    pub id: i32,
    pub fields: Fields,
}

/// The background color for a revision status name: each of the four
/// known names has its own, and every other name falls back to yellow.
pub open spec fn revision_background(status: Seq<char>) -> Color {
    if status == "Needs Review"@ {
        Color::Magenta
    } else if status == "Accepted"@ {
        Color::Green
    } else if status == "Needs Revision"@ {
        Color::Red
    } else if status == "Changes Planned"@ {
        Color::Red
    } else {
        Color::Yellow
    }
}

/// The foreground color paired with `revision_background`: every name
/// outside the four known ones falls back to black.
pub open spec fn revision_foreground(status: Seq<char>) -> Color {
    if status == "Needs Review"@ {
        Color::White
    } else if status == "Accepted"@ {
        Color::Black
    } else if status == "Needs Revision"@ {
        Color::White
    } else if status == "Changes Planned"@ {
        Color::White
    } else {
        Color::Black
    }
}

/// The status style lookup is total: a status name outside the four
/// known ones always maps to the default yellow-on-black pair, never to
/// an error.
pub proof fn lemma_revision_style_total(status: Seq<char>)
    ensures
        status != "Needs Review"@ && status != "Accepted"@ && status != "Needs Revision"@
            && status != "Changes Planned"@ ==> revision_background(status) == Color::Yellow
            && revision_foreground(status) == Color::Black,
{
}

impl Revision {
    /// The revision's display URL: the instance endpoint followed by
    /// `D` and the numeric id.
    pub fn url(&self, config: &FabConfig) -> (r: String)
        ensures
            r@ == config.hosted_instance@ + seq!['D'] + spec_int_str(self.id as int),
    {
        let mut r = config.hosted_instance.clone();
        r.append("D");
        let num = i32_to_string(self.id);
        r.append(num.as_str());
        proof {
            reveal_strlit("D");
            assert(r@ =~= config.hosted_instance@ + seq!['D'] + spec_int_str(self.id as int));
        }
        r
    }

    /// The background of the revision's status style.
    pub fn get_background(&self) -> (r: Color)
        ensures
            r == revision_background(self.fields.status.name@),
    {
        let status = self.fields.status.name.as_str();
        if str_eq(status, "Needs Review") {
            Color::Magenta
        } else if str_eq(status, "Accepted") {
            Color::Green
        } else if str_eq(status, "Needs Revision") {
            Color::Red
        } else if str_eq(status, "Changes Planned") {
            Color::Red
        } else {
            Color::Yellow
        }
    }

    /// The foreground of the revision's status style.
    pub fn get_foreground(&self) -> (r: Color)
        ensures
            r == revision_foreground(self.fields.status.name@),
    {
        let status = self.fields.status.name.as_str();
        if str_eq(status, "Needs Review") {
            Color::White
        } else if str_eq(status, "Accepted") {
            Color::Black
        } else if str_eq(status, "Needs Revision") {
            Color::White
        } else if str_eq(status, "Changes Planned") {
            Color::White
        } else {
            Color::Black
        }
    }
}

} // verus!
