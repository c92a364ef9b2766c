//! The task (ticket) domain model: the closed priority enumeration
//! with its encode/decode bijection, the task query builder, the task
//! normalizer and the priority style lookup.

use vstd::prelude::*;
use vstd::string::*;

use crate::structs::{Color, FabConfig};
use crate::strutil::{
    i32_to_string, spec_dec, spec_int_str, spec_trim, str_eq, trim, u64_to_string,
};
use crate::{param, param_is, FabError, Param};

verus! {

/// A task's priority as the server reports it: numeric value and
/// display name.
pub struct Priority {
    pub value: i32,
    pub name: String,
}

/// A task's workflow status: display name and machine value.
pub struct Status {
    pub name: String,
    pub value: String,
}

/// The displayed fields of a task.
pub struct Fields {
    pub name: String,
    pub status: Status,
    pub priority: Priority,
}

/// One task record.
pub struct Maniphest {
    pub id: i32,
    pub fields: Fields,
}

/// The closed priority enumeration, encoding direction: each of the
/// six names has one numeric value; every other name means nothing.
pub open spec fn priority_value_of(name: Seq<char>) -> Option<int> {
    if name == "unbreak-now"@ {
        Some(100 as int)
    } else if name == "needs-triage"@ {
        Some(90 as int)
    } else if name == "high"@ {
        Some(80 as int)
    } else if name == "normal"@ {
        Some(50 as int)
    } else if name == "low"@ {
        Some(25 as int)
    } else if name == "wishlist"@ {
        Some(0 as int)
    } else {
        None
    }
}

/// The closed priority enumeration, decoding direction: each of the
/// six values has one name; every other value means nothing.
pub open spec fn priority_name_of(value: int) -> Option<Seq<char>> {
    if value == 100 {
        Some("unbreak-now"@)
    } else if value == 90 {
        Some("needs-triage"@)
    } else if value == 80 {
        Some("high"@)
    } else if value == 50 {
        Some("normal"@)
    } else if value == 25 {
        Some("low"@)
    } else if value == 0 {
        Some("wishlist"@)
    } else {
        None
    }
}

/// The priority enumeration is a total bijection over its six names:
/// decoding an encoded name gives the name back, encoding a decoded
/// value gives the value back, and any seventh name or value encodes
/// or decodes to nothing by the definitions above.
pub proof fn lemma_priority_bijection(name: Seq<char>, value: int)
    ensures
        priority_value_of(name) matches Some(v) ==> priority_name_of(v) == Some(name),
        priority_name_of(value) matches Some(n) ==> priority_value_of(n) == Some(value),
{
    reveal_strlit("unbreak-now");
    reveal_strlit("needs-triage");
    reveal_strlit("high");
    reveal_strlit("normal");
    reveal_strlit("low");
    reveal_strlit("wishlist");
    assert("unbreak-now"@.len() == 11);
    assert("needs-triage"@.len() == 12);
    assert("high"@.len() == 4);
    assert("normal"@.len() == 6);
    assert("low"@.len() == 3);
    assert("wishlist"@.len() == 8);
}

impl Priority {
    /// Encodes a priority name, whitespace-trimmed, as its numeric
    /// value; an unrecognized name is a validation error, never a
    /// default.
    pub fn get_value_for_name(name: &str) -> (r: Result<i32, FabError>)
        ensures
            match r {
                Ok(v) => priority_value_of(spec_trim(name@)) == Some(v as int),
                Err(e) => e is Validation && priority_value_of(spec_trim(name@)) is None,
            },
    {
        let t = trim(name);
        let ts = t.as_str();
        if str_eq(ts, "unbreak-now") {
            Ok(100)
        } else if str_eq(ts, "needs-triage") {
            Ok(90)
        } else if str_eq(ts, "high") {
            Ok(80)
        } else if str_eq(ts, "normal") {
            Ok(50)
        } else if str_eq(ts, "low") {
            Ok(25)
        } else if str_eq(ts, "wishlist") {
            Ok(0)
        } else {
            Err(FabError::Validation)
        }
    }

    /// Decodes a numeric priority value as its name; an unrecognized
    /// value is a validation error.
    pub fn get_name_for_value(value: i32) -> (r: Result<String, FabError>)
        ensures
            match r {
                Ok(n) => priority_name_of(value as int) == Some(n@),
                Err(e) => e is Validation && priority_name_of(value as int) is None,
            },
    {
        if value == 100 {
            Ok(String::from_str("unbreak-now"))
        } else if value == 90 {
            Ok(String::from_str("needs-triage"))
        } else if value == 80 {
            Ok(String::from_str("high"))
        } else if value == 50 {
            Ok(String::from_str("normal"))
        } else if value == 25 {
            Ok(String::from_str("low"))
        } else if value == 0 {
            Ok(String::from_str("wishlist"))
        } else {
            Err(FabError::Validation)
        }
    }
}

/// Validates a whole list of priority names before any network call:
/// all names valid, or the position-independent validation error.
#[verifier::loop_isolation(false)]
pub fn priorities_to_values(names: &Vec<String>) -> (r: Result<Vec<i32>, FabError>)
    ensures
        match r {
            Ok(vs) => vs@.len() == names@.len() && forall|i: int|
                0 <= i < names@.len() ==> priority_value_of(spec_trim(names.deep_view()[i]))
                    == Some(vs@[i] as int),
            Err(e) => e is Validation && exists|i: int|
                0 <= i < names@.len() && priority_value_of(spec_trim(names.deep_view()[i]))
                    is None,
        },
{
    let mut vs: Vec<i32> = Vec::new();
    let mut i: usize = 0;
    while i < names.len()
        invariant
            0 <= i <= names@.len(),
            vs@.len() == i,
            forall|k: int|
                0 <= k < i ==> priority_value_of(spec_trim(names.deep_view()[k])) == Some(
                    vs@[k] as int,
                ),
        decreases names@.len() - i,
    {
        proof {
            assert(names.deep_view()[i as int] == names@[i as int]@);
        }
        match Priority::get_value_for_name(names[i].as_str()) {
            Ok(v) => {
                vs.push(v);
            },
            Err(_) => {
                proof {
                    assert(priority_value_of(spec_trim(names.deep_view()[i as int])) is None);
                }
                return Err(FabError::Validation);
            },
        }
        i = i + 1;
    }
    Ok(vs)
}

/// The background color for a priority value: each of the six known
/// values has its own, and every other value falls back to blue.
pub open spec fn task_background(priority: int) -> Color {
    if priority == 100 {
        Color::Red
    } else if priority == 90 {
        Color::Magenta
    } else if priority == 80 {
        Color::DarkRed
    } else if priority == 50 {
        Color::DarkYellow
    } else if priority == 25 {
        Color::Yellow
    } else if priority == 0 {
        Color::Cyan
    } else {
        Color::Blue
    }
}

/// The foreground color paired with `task_background`: white on the
/// dark backgrounds, black on the light ones, white as the fallback.
pub open spec fn task_foreground(priority: int) -> Color {
    if priority == 100 || priority == 90 || priority == 80 {
        Color::White
    } else if priority == 50 || priority == 25 || priority == 0 {
        Color::Black
    } else {
        Color::White
    }
}

/// The priority style lookup is total: a value outside the six known
/// ones always maps to the default blue-on-white pair, never to an
/// error.
pub proof fn lemma_task_style_total(priority: int)
    ensures
        priority != 100 && priority != 90 && priority != 80 && priority != 50 && priority != 25
            && priority != 0 ==> task_background(priority) == Color::Blue && task_foreground(
            priority,
        ) == Color::White,
{
}

impl Maniphest {
    /// The task's display URL: the instance endpoint followed by `T`
    /// and the numeric id.
    pub fn get_task_url(&self, config: &FabConfig) -> (r: String)
        ensures
            r@ == config.hosted_instance@ + seq!['T'] + spec_int_str(self.id as int),
    {
        let mut r = config.hosted_instance.clone();
        r.append("T");
        let num = i32_to_string(self.id);
        r.append(num.as_str());
        proof {
            reveal_strlit("T");
            assert(r@ =~= config.hosted_instance@ + seq!['T'] + spec_int_str(self.id as int));
        }
        r
    }

    /// The background of the task's priority style.
    pub fn get_background(&self) -> (r: Color)
        ensures
            r == task_background(self.fields.priority.value as int),
    {
        let priority = self.fields.priority.value;
        if priority == 100 {
            Color::Red
        } else if priority == 90 {
            Color::Magenta
        } else if priority == 80 {
            Color::DarkRed
        } else if priority == 50 {
            Color::DarkYellow
        } else if priority == 25 {
            Color::Yellow
        } else if priority == 0 {
            Color::Cyan
        } else {
            Color::Blue
        }
    }

    /// The foreground of the task's priority style.
    pub fn get_foreground(&self) -> (r: Color)
        ensures
            r == task_foreground(self.fields.priority.value as int),
    {
        let priority = self.fields.priority.value;
        if priority == 100 || priority == 90 || priority == 80 {
            Color::White
        } else if priority == 50 || priority == 25 || priority == 0 {
            Color::Black
        } else {
            Color::White
        }
    }
}

/// The address of the task search on the configured instance.
pub fn maniphest_search_url(config: &FabConfig) -> (r: String)
    ensures
        r@ == config.hosted_instance@ + "api/maniphest.search"@,
{
    let mut r = config.hosted_instance.clone();
    r.append("api/maniphest.search");
    r
}

/// The payload of a task search: the assigned-tasks query key, the
/// token, the page limit, one constraint entry per priority value in
/// order, the sort key and the requested status.
#[verifier::loop_isolation(false)]
pub fn build_task_query(
    config: &FabConfig,
    limit: &str,
    priorities: &Vec<i32>,
    sort: &str,
    status: &str,
) -> (r: Vec<Param>)
    ensures
        r@.len() == priorities@.len() + 5,
        param_is(r@[0], "queryKey"@, "assigned"@),
        param_is(r@[1], "api.token"@, config.api_token@),
        param_is(r@[2], "limit"@, limit@),
        forall|i: int|
            0 <= i < priorities@.len() ==> param_is(
                r@[3 + i],
                "constraints[priorities]["@ + spec_dec(i as nat) + "]"@,
                spec_int_str(priorities@[i] as int),
            ),
        param_is(r@[3 + priorities@.len() as int], "order"@, sort@),
        param_is(r@[4 + priorities@.len() as int], "constraints[statuses][0]"@, status@),
{
    let mut r: Vec<Param> = Vec::new();
    r.push(param("queryKey", String::from_str("assigned")));
    r.push(param("api.token", config.api_token.clone()));
    r.push(param("limit", String::from_str(limit)));
    let mut i: usize = 0;
    while i < priorities.len()
        invariant
            0 <= i <= priorities@.len(),
            r@.len() == 3 + i,
            param_is(r@[0], "queryKey"@, "assigned"@),
            param_is(r@[1], "api.token"@, config.api_token@),
            param_is(r@[2], "limit"@, limit@),
            forall|k: int|
                0 <= k < i ==> param_is(
                    r@[3 + k],
                    "constraints[priorities]["@ + spec_dec(k as nat) + "]"@,
                    spec_int_str(priorities@[k] as int),
                ),
        decreases priorities@.len() - i,
    {
        let mut key = String::from_str("constraints[priorities][");
        let idx = u64_to_string(i as u64);
        key.append(idx.as_str());
        key.append("]");
        let value = i32_to_string(priorities[i]);
        proof {
            assert(key@ =~= "constraints[priorities]["@ + spec_dec(i as nat) + "]"@);
        }
        r.push(Param { key, value });
        i = i + 1;
    }
    r.push(param("order", String::from_str(sort)));
    r.push(param("constraints[statuses][0]", String::from_str(status)));
    r
}

/// Whether the normalizer keeps a task when the caller asked for open
/// work: only records whose status value is `open`.
pub open spec fn task_is_open(t: Maniphest) -> bool {
    t.fields.status.value@ == "open"@
}

/// The task normalizer: with the default `open` status every record
/// that is not open is dropped; a caller who explicitly requested
/// another status keeps the page as the server sent it. Order is
/// preserved either way.
#[verifier::loop_isolation(false)]
pub fn normalize_tasks(tasks: Vec<Maniphest>, status: &str) -> (r: Vec<Maniphest>)
    ensures
        status@ == "open"@ ==> r@ == tasks@.filter(|t: Maniphest| task_is_open(t)),
        status@ != "open"@ ==> r@ == tasks@,
{
    if !str_eq(status, "open") {
        return tasks;
    }
    let ghost orig = tasks@;
    let ghost pred = |t: Maniphest| task_is_open(t);
    let mut tasks = tasks;
    let mut out: Vec<Maniphest> = Vec::new();
    let mut i: usize = 0;
    let n = tasks.len();
    proof {
        reveal(Seq::filter);
        assert(orig.take(0) =~= Seq::<Maniphest>::empty());
        assert(orig.len() == n as int);
    }
    while tasks.len() > 0
        invariant
            0 <= i <= orig.len(),
            orig.len() <= usize::MAX,
            tasks@ =~= orig.skip(i as int),
            out@ == orig.take(i as int).filter(pred),
        decreases tasks@.len(),
    {
        let t = tasks.remove(0);
        proof {
            assert(t == orig[i as int]);
            assert(orig.skip(i as int).remove(0) =~= orig.skip(i + 1));
            reveal_with_fuel(Seq::filter, 2);
            let a = orig.take(i as int);
            let b = seq![orig[i as int]];
            assert(orig.take(i + 1) =~= a + b);
            Seq::<Maniphest>::filter_distributes_over_add(a, b, pred);
            assert(b.drop_last() =~= Seq::<Maniphest>::empty());
        }
        if str_eq(t.fields.status.value.as_str(), "open") {
            out.push(t);
            proof {
                reveal_with_fuel(Seq::filter, 2);
                assert(pred(orig[i as int]));
                assert(seq![orig[i as int]].filter(pred) =~= Seq::<Maniphest>::empty().push(
                    orig[i as int],
                ));
                assert(out@ =~= orig.take(i as int).filter(pred) + seq![orig[i as int]].filter(
                    pred,
                ));
                assert(out@ == orig.take(i + 1).filter(pred));
            }
        } else {
            proof {
                reveal_with_fuel(Seq::filter, 2);
                assert(!pred(orig[i as int]));
                assert(seq![orig[i as int]].filter(pred) =~= Seq::<Maniphest>::empty());
                assert(out@ =~= orig.take(i as int).filter(pred) + seq![orig[i as int]].filter(
                    pred,
                ));
                assert(out@ == orig.take(i + 1).filter(pred));
            }
        }
        i = i + 1;
    }
    proof {
        assert(orig.take(i as int) =~= orig);
    }
    out
}

} // verus!
