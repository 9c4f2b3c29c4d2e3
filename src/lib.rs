use vstd::prelude::*;

verus! {

/// The text that the greeting function hands back on every call.
pub open spec fn greeting() -> Seq<char> {
    "Hello from droid!"@
}

/// The name under which the host runtime finds the greeting function.
pub open spec fn greeting_name() -> Seq<char> {
    "hello"@
}

/// Returns the greeting. It takes no input and reads no state, so every call
/// yields the same text.
pub fn hello() -> (r: String)
    ensures
        r@ == greeting(),
{
    "Hello from droid!".to_owned()
}

/// Two calls of `hello` give the same text: whatever one call returned, the
/// next returns it again, and no call leaves anything behind that a later one
/// could see.
pub proof fn lemma_hello_repeatable(first: String, second: String)
    requires
        first@ == greeting(),
        second@ == greeting(),
    ensures
        first@ == second@,
{
}

/// The names of the callables that the module registers when it is loaded,
/// in order: the greeting function alone, under its name.
pub fn exported_names() -> (r: Vec<String>)
    ensures
        r@.len() == 1,
        r@[0]@ == greeting_name(),
{
    let mut names: Vec<String> = Vec::new();
    names.push("hello".to_owned());
    names
}

} // verus!
