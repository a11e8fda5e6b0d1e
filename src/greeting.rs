//! Greeting texts, for the desktop command and for the `/hello` route.
use vstd::prelude::*;
use vstd::string::StringExecFns;

verus! {

/// The greeting for `name`, with no store behind it.
pub open spec fn greeting_text(name: Seq<char>) -> Seq<char> {
    "Hello, "@ + name + "! You've been greeted from Rust!"@
}

/// The greeting for `name`, followed by the user name read from the store.
pub open spec fn store_greeting_text(name: Seq<char>, user: Seq<char>) -> Seq<char> {
    greeting_text(name) + " User from DB: "@ + user
}

/// Formats the greeting for `name`; the name is taken as it is, unescaped.
pub fn greet(name: &str) -> (r: String)
    ensures
        r@ == greeting_text(name@),
{
    let r = String::from_str("Hello, ");
    let r = r.concat(name);
    r.concat("! You've been greeted from Rust!")
}

/// Formats the `/hello` message: the plain greeting where no store is wired
/// in, else the greeting with the user name read from the store.
pub fn hello_message(name: &str, store_user: Option<&str>) -> (r: String)
    ensures
        r@ == match store_user {
            Some(u) => store_greeting_text(name@, u@),
            None => greeting_text(name@),
        },
{
    let r = greet(name);
    match store_user {
        Some(u) => {
            let r = r.concat(" User from DB: ");
            r.concat(u)
        },
        None => r,
    }
}

/// The name that the `/hello` message shows for the store's first user: the
/// row's name where there is one, else the fallback `No user`.
pub open spec fn user_or_fallback(row: Option<Seq<char>>) -> Seq<char> {
    match row {
        Some(n) => n,
        None => "No user"@,
    }
}

/// Picks the user name to show from the row that the store returned, if any.
pub fn user_name_or_fallback(row: Option<String>) -> (r: String)
    ensures
        r@ == user_or_fallback(
            match row {
                Some(n) => Some(n@),
                None => None,
            },
        ),
{
    match row {
        Some(n) => n,
        None => String::from_str("No user"),
    }
}

/// Every `/hello` message holds the caller's name verbatim, right after the
/// leading `Hello, `, whatever the store held.
pub proof fn lemma_message_holds_name(name: Seq<char>, store_user: Option<Seq<char>>)
    ensures
        ({
            let m = match store_user {
                Some(u) => store_greeting_text(name, u),
                None => greeting_text(name),
            };
            &&& m.len() >= name.len() + 7
            &&& m.subrange(7, 7 + name.len() as int) == name
        }),
{
    reveal_strlit("Hello, ");
    let g = greeting_text(name);
    assert(g.subrange(7, 7 + name.len() as int) =~= name);
    match store_user {
        Some(u) => {
            let m = store_greeting_text(name, u);
            assert(m.subrange(7, 7 + name.len() as int) =~= g.subrange(7, 7 + name.len() as int));
        },
        None => {},
    }
}

} // verus!
