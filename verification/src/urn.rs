//! URN (Uniform Resource Name) types and parsing for Framecast.
//!
//! Framecast uses URNs to identify and scope resources:
//! - `framecast:user:{user_id}` - personal resources
//! - `framecast:team:{team_id}` - team-shared resources
//! - `framecast:{team_id}:{user_id}` - team-private resources
//! - `framecast:system:{category}:{name}` - system assets
//!
//! UUIDs are carried as 128-bit numbers (the big-endian value of the UUID).

use vstd::prelude::*;

use crate::error::{res_view, validation, validation_error, Error, ErrorKind};
use crate::ids::{is_hyphenated_uuid_char, parse_uuid, spec_uuid_parse, spec_uuid_text, uuid_text};
use crate::text::{
    lemma_split_append_sep, lemma_split_no_sep, split_on, split_spec, text_eq, views,
};

verus! {

/// A Framecast Uniform Resource Name.
#[derive(Debug, Clone, PartialEq, Eq, Hash)]
pub struct Urn(String);

impl View for Urn {
    type V = Seq<char>;

    closed spec fn view(&self) -> Seq<char> {
        self.0@
    }
}

/// Components of a parsed URN.
#[derive(Debug, Clone, PartialEq, Eq)]
pub enum UrnComponents {
    User { user_id: u128 },
    Team { team_id: u128 },
    TeamUser { team_id: u128, user_id: u128 },
    System { category: String, name: String },
}

/// The model of `UrnComponents`.
pub enum UrnView {
    User { user_id: u128 },
    Team { team_id: u128 },
    TeamUser { team_id: u128, user_id: u128 },
    System { category: Seq<char>, name: Seq<char> },
}

impl View for UrnComponents {
    type V = UrnView;

    open spec fn view(&self) -> UrnView {
        match self {
            UrnComponents::User { user_id } => UrnView::User { user_id: *user_id },
            UrnComponents::Team { team_id } => UrnView::Team { team_id: *team_id },
            UrnComponents::TeamUser { team_id, user_id } => UrnView::TeamUser {
                team_id: *team_id,
                user_id: *user_id,
            },
            UrnComponents::System { category, name } => UrnView::System { category: category@, name: name@ },
        }
    }
}

/// What parsing a URN text gives: its components, or the validation error
/// that the text is refused with.
pub open spec fn urn_parse_spec(s: Seq<char>) -> Result<UrnView, (ErrorKind, Seq<char>)> {
    let parts = split_spec(s, ':');
    if parts.len() < 2 || parts[0] != "framecast"@ {
        Err(validation("URN must start with 'framecast:'"@))
    } else if parts.len() == 3 {
        if parts[1] == "user"@ {
            match spec_uuid_parse(parts[2]) {
                Some(u) => Ok(UrnView::User { user_id: u }),
                None => Err(validation("Invalid user UUID"@)),
            }
        } else if parts[1] == "team"@ {
            match spec_uuid_parse(parts[2]) {
                Some(t) => Ok(UrnView::Team { team_id: t }),
                None => Err(validation("Invalid team UUID"@)),
            }
        } else {
            match (spec_uuid_parse(parts[1]), spec_uuid_parse(parts[2])) {
                (None, _) => Err(validation("Invalid team UUID"@)),
                (Some(_), None) => Err(validation("Invalid user UUID"@)),
                (Some(t), Some(u)) => Ok(UrnView::TeamUser { team_id: t, user_id: u }),
            }
        }
    } else if parts.len() == 4 && parts[1] == "system"@ {
        if parts[2].len() == 0 || parts[3].len() == 0 {
            Err(validation("System URN category and name cannot be empty"@))
        } else {
            Ok(UrnView::System { category: parts[2], name: parts[3] })
        }
    } else {
        Err(validation("Invalid URN format"@))
    }
}

/// The model of a parse result.
pub open spec fn parse_result_view(r: Result<UrnComponents, Error>) -> Result<UrnView, (ErrorKind, Seq<char>)> {
    match r {
        Ok(c) => Ok(c@),
        Err(e) => Err(e@),
    }
}

/// Whether a URN text is a well-formed Framecast URN.
pub open spec fn urn_valid(s: Seq<char>) -> bool {
    urn_parse_spec(s) is Ok
}

pub open spec fn user_urn_text(user_id: u128) -> Seq<char> {
    "framecast:user:"@ + spec_uuid_text(user_id)
}

pub open spec fn team_urn_text(team_id: u128) -> Seq<char> {
    "framecast:team:"@ + spec_uuid_text(team_id)
}

pub open spec fn team_user_urn_text(team_id: u128, user_id: u128) -> Seq<char> {
    "framecast:"@ + spec_uuid_text(team_id) + ":"@ + spec_uuid_text(user_id)
}

pub open spec fn system_urn_text(category: Seq<char>, name: Seq<char>) -> Seq<char> {
    "framecast:system:"@ + category + ":"@ + name
}

proof fn lemma_uuid_text_no_colon(t: Seq<char>)
    requires
        forall|i: int| 0 <= i < t.len() ==> is_hyphenated_uuid_char(#[trigger] t[i]),
    ensures
        !t.contains(':'),
{
    if t.contains(':') {
        let i = choose|i: int| 0 <= i < t.len() && t[i] == ':';
        assert(is_hyphenated_uuid_char(t[i]));
    }
}

proof fn lemma_framecast_words()
    ensures
        "framecast"@ =~= seq!['f', 'r', 'a', 'm', 'e', 'c', 'a', 's', 't'],
        "user"@ =~= seq!['u', 's', 'e', 'r'],
        "team"@ =~= seq!['t', 'e', 'a', 'm'],
        "system"@ =~= seq!['s', 'y', 's', 't', 'e', 'm'],
        ":"@ =~= seq![':'],
        "framecast:"@ =~= "framecast"@ + seq![':'],
        "framecast:user:"@ =~= "framecast"@ + seq![':'] + "user"@ + seq![':'],
        "framecast:team:"@ =~= "framecast"@ + seq![':'] + "team"@ + seq![':'],
        "framecast:system:"@ =~= "framecast"@ + seq![':'] + "system"@ + seq![':'],
        !"framecast"@.contains(':'),
        !"user"@.contains(':'),
        !"team"@.contains(':'),
        !"system"@.contains(':'),
{
    reveal_strlit("framecast");
    reveal_strlit("user");
    reveal_strlit("team");
    reveal_strlit("system");
    reveal_strlit(":");
    reveal_strlit("framecast:");
    reveal_strlit("framecast:user:");
    reveal_strlit("framecast:team:");
    reveal_strlit("framecast:system:");
    let a = "framecast"@;
    assert forall|i: int| 0 <= i < a.len() implies a[i] != ':' by {}
    let b = "user"@;
    assert forall|i: int| 0 <= i < b.len() implies b[i] != ':' by {}
    let c = "team"@;
    assert forall|i: int| 0 <= i < c.len() implies c[i] != ':' by {}
    let d = "system"@;
    assert forall|i: int| 0 <= i < d.len() implies d[i] != ':' by {}
}

/// The pieces of `w0 : w1 : w2`, where none of the words holds a colon.
proof fn lemma_split_three(w0: Seq<char>, w1: Seq<char>, w2: Seq<char>)
    requires
        !w0.contains(':'),
        !w1.contains(':'),
        !w2.contains(':'),
    ensures
        split_spec(w0 + seq![':'] + w1 + seq![':'] + w2, ':') == seq![w0, w1, w2],
{
    lemma_split_no_sep(w2, ':');
    lemma_split_append_sep(w1, w2, ':');
    lemma_split_append_sep(w0, w1 + seq![':'] + w2, ':');
    assert(w0 + seq![':'] + w1 + seq![':'] + w2 =~= w0 + seq![':'] + (w1 + seq![':'] + w2));
    assert(seq![w0] + (seq![w1] + seq![w2]) =~= seq![w0, w1, w2]);
}

/// The pieces of `w0 : w1 : w2 : w3`, where none of the words holds a colon.
proof fn lemma_split_four(w0: Seq<char>, w1: Seq<char>, w2: Seq<char>, w3: Seq<char>)
    requires
        !w0.contains(':'),
        !w1.contains(':'),
        !w2.contains(':'),
        !w3.contains(':'),
    ensures
        split_spec(w0 + seq![':'] + w1 + seq![':'] + w2 + seq![':'] + w3, ':') == seq![w0, w1, w2, w3],
{
    lemma_split_three(w1, w2, w3);
    lemma_split_append_sep(w0, w1 + seq![':'] + w2 + seq![':'] + w3, ':');
    assert(w0 + seq![':'] + w1 + seq![':'] + w2 + seq![':'] + w3 =~= w0 + seq![':'] + (w1 + seq![':'] + w2
        + seq![':'] + w3));
    assert(seq![w0] + seq![w1, w2, w3] =~= seq![w0, w1, w2, w3]);
}

impl Urn {
    /// Create a new URN from a string, validating its format.
    pub fn new(s: &str) -> (r: Result<Urn, Error>)
        ensures
            match r {
                Ok(u) => u@ == s@ && urn_valid(s@),
                Err(e) => urn_parse_spec(s@) is Err && e@ == urn_parse_spec(s@)->Err_0,
            },
    {
        let urn = Urn(String::from_str(s));
        match urn.validate() {
            Ok(()) => Ok(urn),
            Err(e) => Err(e),
        }
    }

    /// Parse a URN from its text (the `FromStr` of the URN type).
    pub fn from_str(s: &str) -> (r: Result<Urn, Error>)
        ensures
            match r {
                Ok(u) => u@ == s@ && urn_valid(s@),
                Err(e) => urn_parse_spec(s@) is Err && e@ == urn_parse_spec(s@)->Err_0,
            },
    {
        Urn::new(s)
    }

    /// Create a user URN
    pub fn user(user_id: u128) -> (r: Urn)
        ensures
            r@ == user_urn_text(user_id),
            urn_parse_spec(r@) == Ok::<UrnView, (ErrorKind, Seq<char>)>(UrnView::User { user_id }),
    {
        let t = uuid_text(user_id);
        let mut s = String::from_str("framecast:user:");
        s.append(t.as_str());
        proof {
            lemma_framecast_words();
            lemma_uuid_text_no_colon(t@);
            lemma_split_three("framecast"@, "user"@, t@);
            assert(s@ =~= "framecast"@ + seq![':'] + "user"@ + seq![':'] + t@);
        }
        Urn(s)
    }

    /// Create a team URN
    pub fn team(team_id: u128) -> (r: Urn)
        ensures
            r@ == team_urn_text(team_id),
            urn_parse_spec(r@) == Ok::<UrnView, (ErrorKind, Seq<char>)>(UrnView::Team { team_id }),
    {
        let t = uuid_text(team_id);
        let mut s = String::from_str("framecast:team:");
        s.append(t.as_str());
        proof {
            lemma_framecast_words();
            lemma_uuid_text_no_colon(t@);
            lemma_split_three("framecast"@, "team"@, t@);
            assert(s@ =~= "framecast"@ + seq![':'] + "team"@ + seq![':'] + t@);
            assert("team"@ != "user"@) by {
                assert("team"@[0] != "user"@[0]);
            }
        }
        Urn(s)
    }

    /// Create a team-private URN (a user's work within a team)
    pub fn team_user(team_id: u128, user_id: u128) -> (r: Urn)
        ensures
            r@ == team_user_urn_text(team_id, user_id),
            urn_parse_spec(r@) == Ok::<UrnView, (ErrorKind, Seq<char>)>(UrnView::TeamUser { team_id, user_id }),
    {
        let t = uuid_text(team_id);
        let u = uuid_text(user_id);
        let mut s = String::from_str("framecast:");
        s.append(t.as_str());
        s.append(":");
        s.append(u.as_str());
        proof {
            lemma_framecast_words();
            lemma_uuid_text_no_colon(t@);
            lemma_uuid_text_no_colon(u@);
            lemma_split_three("framecast"@, t@, u@);
            assert(s@ =~= "framecast"@ + seq![':'] + t@ + seq![':'] + u@);
            assert(t@ != "user"@ && t@ != "team"@);
        }
        Urn(s)
    }

    /// Create a system asset URN
    pub fn system(category: &str, name: &str) -> (r: Urn)
        ensures
            r@ == system_urn_text(category@, name@),
            !category@.contains(':') && !name@.contains(':') && category@.len() > 0 && name@.len() > 0
                ==> urn_parse_spec(r@) == Ok::<UrnView, (ErrorKind, Seq<char>)>(
                UrnView::System { category: category@, name: name@ },
            ),
    {
        let mut s = String::from_str("framecast:system:");
        s.append(category);
        s.append(":");
        s.append(name);
        proof {
            lemma_framecast_words();
            if !category@.contains(':') && !name@.contains(':') {
                lemma_split_four("framecast"@, "system"@, category@, name@);
                assert(s@ =~= "framecast"@ + seq![':'] + "system"@ + seq![':'] + category@ + seq![':'] + name@);
            }
        }
        Urn(s)
    }

    /// Get the raw URN string
    pub fn as_str(&self) -> (r: &str)
        ensures
            r@ == self@,
    {
        self.0.as_str()
    }

    /// The URN's text (its `Display`).
    pub fn to_string(&self) -> (r: String)
        ensures
            r@ == self@,
    {
        self.0.clone()
    }

    /// The URN's text, consuming the URN (`From<Urn> for String`).
    pub fn into_string(self) -> (r: String)
        ensures
            r@ == self@,
    {
        self.0
    }

    /// Parse the URN and extract its components
    pub fn parse(&self) -> (r: Result<UrnComponents, Error>)
        ensures
            parse_result_view(r) == urn_parse_spec(self@),
    {
        parse_urn_text(self.0.as_str())
    }

    /// Validate URN format
    fn validate(&self) -> (r: Result<(), Error>)
        ensures
            r is Ok <==> urn_valid(self@),
            r matches Err(e) ==> e@ == urn_parse_spec(self@)->Err_0,
    {
        match self.parse() {
            Ok(_) => Ok(()),
            Err(e) => Err(e),
        }
    }

    /// Check if this is a user URN
    pub fn is_user(&self) -> (r: bool)
        ensures
            r == (urn_parse_spec(self@) matches Ok(UrnView::User { .. })),
    {
        match self.parse() {
            Ok(UrnComponents::User { .. }) => true,
            _ => false,
        }
    }

    /// Check if this is a team URN
    pub fn is_team(&self) -> (r: bool)
        ensures
            r == (urn_parse_spec(self@) matches Ok(UrnView::Team { .. })),
    {
        match self.parse() {
            Ok(UrnComponents::Team { .. }) => true,
            _ => false,
        }
    }

    /// Check if this is a team-user URN
    pub fn is_team_user(&self) -> (r: bool)
        ensures
            r == (urn_parse_spec(self@) matches Ok(UrnView::TeamUser { .. })),
    {
        match self.parse() {
            Ok(UrnComponents::TeamUser { .. }) => true,
            _ => false,
        }
    }

    /// Check if this is a system URN
    pub fn is_system(&self) -> (r: bool)
        ensures
            r == (urn_parse_spec(self@) matches Ok(UrnView::System { .. })),
    {
        match self.parse() {
            Ok(UrnComponents::System { .. }) => true,
            _ => false,
        }
    }
}

/// Parse a URN text into its components.
pub fn parse_urn_text(s: &str) -> (r: Result<UrnComponents, Error>)
    ensures
        parse_result_view(r) == urn_parse_spec(s@),
{
    let parts = split_on(s, ':');
    let ghost ps = split_spec(s@, ':');
    assert(parts@.len() == ps.len());
    assert(forall|i: int| 0 <= i < ps.len() ==> #[trigger] parts@[i]@ == ps[i]) by {
        assert forall|i: int| 0 <= i < ps.len() implies #[trigger] parts@[i]@ == ps[i] by {
            assert(views(parts@)[i] == parts@[i]@);
        }
    }
    if parts.len() < 2 || !text_eq(parts[0].as_str(), "framecast") {
        return Err(validation_error("URN must start with 'framecast:'"));
    }
    if parts.len() == 3 {
        if text_eq(parts[1].as_str(), "user") {
            match parse_uuid(parts[2].as_str()) {
                Some(u) => Ok(UrnComponents::User { user_id: u }),
                None => Err(validation_error("Invalid user UUID")),
            }
        } else if text_eq(parts[1].as_str(), "team") {
            match parse_uuid(parts[2].as_str()) {
                Some(t) => Ok(UrnComponents::Team { team_id: t }),
                None => Err(validation_error("Invalid team UUID")),
            }
        } else {
            let t = match parse_uuid(parts[1].as_str()) {
                Some(t) => t,
                None => {
                    return Err(validation_error("Invalid team UUID"));
                },
            };
            let u = match parse_uuid(parts[2].as_str()) {
                Some(u) => u,
                None => {
                    return Err(validation_error("Invalid user UUID"));
                },
            };
            Ok(UrnComponents::TeamUser { team_id: t, user_id: u })
        }
    } else if parts.len() == 4 && text_eq(parts[1].as_str(), "system") {
        if parts[2].as_str().is_empty() || parts[3].as_str().is_empty() {
            return Err(validation_error("System URN category and name cannot be empty"));
        }
        Ok(UrnComponents::System { category: parts[2].clone(), name: parts[3].clone() })
    } else {
        Err(validation_error("Invalid URN format"))
    }
}

/// A URN text has at most one kind: user, team, team-user and system URNs
/// are told apart by their text alone.
pub proof fn lemma_urn_kinds_exclusive(s: Seq<char>)
    ensures
        urn_parse_spec(s) matches Ok(UrnView::User { .. }) ==> !(urn_parse_spec(s) matches Ok(
            UrnView::Team { .. },
        )) && !(urn_parse_spec(s) matches Ok(UrnView::TeamUser { .. })) && !(urn_parse_spec(s) matches Ok(
            UrnView::System { .. },
        )),
        urn_parse_spec(s) matches Ok(UrnView::Team { .. }) ==> !(urn_parse_spec(s) matches Ok(
            UrnView::TeamUser { .. },
        )) && !(urn_parse_spec(s) matches Ok(UrnView::System { .. })),
        urn_parse_spec(s) matches Ok(UrnView::TeamUser { .. }) ==> !(urn_parse_spec(s) matches Ok(
            UrnView::System { .. },
        )),
{
}

} // verus!
