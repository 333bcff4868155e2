//! Closures handed back to the caller: the anonymous types come out
//! as `impl Fn`, `impl FnMut` and `impl FnOnce`, contracts intact.

use vstd::prelude::*;

verus! {

/// Makes a closure implementing `Fn`, its promise carried outward.
pub fn create_fn() -> (f: impl Fn() -> &'static str)
    ensures
        call_requires(f, ()),
        forall|r: &'static str| call_ensures(f, (), r) ==> r@ == "This is a: Fn"@,
{
    move || -> (res: &'static str)
        ensures
            res@ == "This is a: Fn"@,
        { "This is a: Fn" }
}

/// Makes a closure implementing `FnMut`.
pub fn create_fnmut() -> (f: impl FnMut() -> &'static str)
    ensures
        call_requires(f, ()),
        forall|r: &'static str| call_ensures(f, (), r) ==> r@ == "This is a: FnMut"@,
{
    move || -> (res: &'static str)
        ensures
            res@ == "This is a: FnMut"@,
        { "This is a: FnMut" }
}

/// Makes a closure implementing only `FnOnce`.
pub fn create_fnonce() -> (f: impl FnOnce() -> &'static str)
    ensures
        call_requires(f, ()),
        forall|r: &'static str| call_ensures(f, (), r) ==> r@ == "This is a: FnOnce"@,
{
    move || -> (res: &'static str)
        ensures
            res@ == "This is a: FnOnce"@,
        { "This is a: FnOnce" }
}

/// Anonymous closure types come back as `impl Fn`, `impl FnMut` and
/// `impl FnOnce`, each still bound by its contract.
pub fn closures_as_output_params() -> (r: (&'static str, &'static str, &'static str))
    ensures
        r.0@ == "This is a: Fn"@,
        r.1@ == "This is a: FnMut"@,
        r.2@ == "This is a: FnOnce"@,
{
    let fn_plain = create_fn();
    let mut fn_mut = create_fnmut();
    let fn_once = create_fnonce();

    let a = fn_plain();
    let b = fn_mut();
    let c = fn_once();
    (a, b, c)
}

} // verus!
