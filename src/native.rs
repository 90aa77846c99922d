use vstd::prelude::*;

use crate::value::{has_host_form, host_form, HostValue, JsConvert, Value};

verus! {

/// A function supplied by the host, under the name and arity by which
/// programs call it.
#[derive(Debug)]
pub struct JsNativeFn<F> {
    name: String,
    arity: u8,
    function: F,
}

impl<F> JsNativeFn<F> {
    pub closed spec fn spec_name(&self) -> String {
        self.name
    }

    pub closed spec fn spec_arity(&self) -> u8 {
        self.arity
    }

    pub closed spec fn spec_function(&self) -> F {
        self.function
    }

    pub fn new(name: String, arity: u8, function: F) -> (r: JsNativeFn<F>)
        ensures
            r.spec_name() == name,
            r.spec_arity() == arity,
            r.spec_function() == function,
    {
        JsNativeFn { name, arity, function }
    }
}

/// How a native function is carried out: by a function of the host, or by
/// reading the host's clock.
#[derive(Debug, PartialEq)]
pub enum NativeImpl<F> {
    Host(F),
    Clock,
}

/// An entry of the native table that the engine compiles against.
#[derive(Debug)]
pub struct NativeFunction<F> {
    pub name: String,
    pub arity: u8,
    pub function: NativeImpl<F>,
}

/// Conversion of a host function into an entry of the native table.
pub trait IntoNative<F>: Sized {
    spec fn native_spec(self) -> NativeFunction<F>;

    fn into_native(self) -> (r: NativeFunction<F>)
        ensures
            r == self.native_spec(),
    ;
}

impl<F> IntoNative<F> for JsNativeFn<F> {
    open spec fn native_spec(self) -> NativeFunction<F> {
        NativeFunction {
            name: self.spec_name(),
            arity: self.spec_arity(),
            function: NativeImpl::Host(self.spec_function()),
        }
    }

    fn into_native(self) -> (r: NativeFunction<F>) {
        let JsNativeFn { name, arity, function } = self;
        NativeFunction { name, arity, function: NativeImpl::Host(function) }
    }
}

/// The arguments of a native call in host form, in their order; `None` if
/// one of them has no host representation.
pub fn marshal_args(vals: &Vec<Value>) -> (r: Option<Vec<HostValue>>)
    ensures
        r is Some <==> forall|i: int| 0 <= i < vals@.len() ==> has_host_form(#[trigger] vals@[i]),
        r matches Some(args) ==> args@ == vals@.map_values(|v: Value| host_form(v)),
{
    let mut args: Vec<HostValue> = Vec::new();
    let mut i: usize = 0;
    while i < vals.len()
        invariant
            i <= vals@.len(),
            forall|j: int| 0 <= j < i ==> has_host_form(#[trigger] vals@[j]),
            args@ == vals@.subrange(0, i as int).map_values(|v: Value| host_form(v)),
        decreases vals@.len() - i,
    {
        let v = &vals[i];
        if !v.is_convertible() {
            return None;
        }
        args.push(v.to_js());
        proof {
            assert(vals@.subrange(0, i + 1) == vals@.subrange(0, i as int).push(vals@[i as int]));
        }
        i = i + 1;
    }
    proof {
        assert(vals@.subrange(0, i as int) == vals@);
    }
    Some(args)
}

} // verus!
