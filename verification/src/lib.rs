use vstd::prelude::*;

pub mod ai;
pub mod capture;
pub mod clock;
pub mod muxer;
pub mod text;

use crate::text::{decimal, push_decimal};

verus! {

/// The greeting the desktop shell shows for `name`.
pub open spec fn greeting(name: Seq<char>) -> Seq<char> {
    "Hello, "@ + name + "! You've been greeted from Rust!"@
}

/// Greets `name` in the words of the desktop shell.
pub fn greet(name: &str) -> (res: String)
    ensures
        res@ == greeting(name@),
        res@ == "Hello, "@ + name@ + "! You've been greeted from Rust!"@,
{
    let mut s = String::from_str("Hello, ");
    s.append(name);
    s.append("! You've been greeted from Rust!");
    s
}

/// The greeting holds the whole name, unaltered, between `Hello, ` and
/// `! You've been greeted from Rust!`: it is 39 characters longer than the name, the name
/// can be read back from it, and different names give different greetings.
pub proof fn lemma_greeting_keeps_the_name(name: Seq<char>, other: Seq<char>)
    ensures
        greeting(name).len() == name.len() + 39,
        greeting(name).subrange(0, 7) == seq!['H', 'e', 'l', 'l', 'o', ',', ' '],
        greeting(name).subrange(7, 7 + name.len() as int) == name,
        greeting(name).subrange(7 + name.len() as int, greeting(name).len() as int)
            == "! You've been greeted from Rust!"@,
        greeting(name) == greeting(other) ==> name == other,
{
    reveal_strlit("Hello, ");
    reveal_strlit("! You've been greeted from Rust!");
    let g = greeting(name);
    assert(g.subrange(0, 7) =~= seq!['H', 'e', 'l', 'l', 'o', ',', ' ']);
    assert(g.subrange(7, 7 + name.len() as int) =~= name);
    assert(g.subrange(7 + name.len() as int, g.len() as int) =~= "! You've been greeted from Rust!"@);
    if greeting(name) == greeting(other) {
        let h = greeting(other);
        assert(name.len() == other.len());
        assert(h.subrange(7, 7 + other.len() as int) =~= other);
    }
}

/// The identifier of a recording session started at `millis` milliseconds after the Unix
/// epoch.
pub open spec fn session_id(millis: int) -> Seq<char> {
    "session_"@ + decimal(millis)
}

/// The identifier of the session started at `millis`: `session_` and the number in decimal.
pub fn session_id_for(millis: i64) -> (id: String)
    ensures
        id@ == session_id(millis as int),
{
    let mut s = String::from_str("session_");
    push_decimal(&mut s, millis);
    s
}

/// A session identifier names its starting millisecond exactly: it begins with `session_`,
/// and two identifiers are equal only for the same millisecond.
pub proof fn lemma_session_id_names_its_millisecond(a: int, b: int)
    ensures
        session_id(a).subrange(0, 8) == seq!['s', 'e', 's', 's', 'i', 'o', 'n', '_'],
        session_id(a) == session_id(b) ==> a == b,
{
    reveal_strlit("session_");
    assert(session_id(a).subrange(0, 8) =~= seq!['s', 'e', 's', 's', 'i', 'o', 'n', '_']);
    if session_id(a) == session_id(b) {
        assert(decimal(a) =~= session_id(a).subrange(8, session_id(a).len() as int));
        assert(decimal(b) =~= session_id(b).subrange(8, session_id(b).len() as int));
        crate::text::lemma_decimal_injective(a, b);
    }
}

/// The identifier of a session that starts now, by the wall clock; `None` where the clock
/// cannot be read as a time after the Unix epoch.
pub fn new_session_id() -> (id: Option<String>)
    ensures
        id matches Some(id) ==> exists|millis: int| millis >= 0 && id@ == session_id(millis),
        id matches Some(id) ==> exists|millis: i64|
            #[trigger] call_ensures(crate::clock::utc_now_millis, (), Some(millis)) && id@
                == session_id(millis as int),
        id is None ==> call_ensures(crate::clock::utc_now_millis, (), None::<i64>),
{
    match crate::clock::utc_now_millis() {
        Some(millis) => {
            let id = session_id_for(millis);
            assert(id@ == session_id(millis as int));
            Some(id)
        },
        None => None,
    }
}

} // verus!
