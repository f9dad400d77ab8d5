use vstd::prelude::*;
use vstd::utf8::encode_utf8;
use crate::functions;
use crate::functions::{
    add_spec, fibonacci_spec, max_byte, prepend_hello_spec, result_view, reversed, sub_spec,
};
use crate::registry::{GuestFunction, Registry, MAX_FUNCTIONS};

verus! {

/// The functions this guest image exports.
#[derive(PartialEq, Eq, Structural, Clone, Copy, Debug)]
pub enum ExampleFn {
    ArrayReverse,
    Fibonacci,
    FindMax,
    Add,
    Sub,
    PrependHello,
}

impl GuestFunction for ExampleFn {
    open spec fn spec_call(&self, args: Seq<u8>) -> Result<Seq<u8>, Seq<char>> {
        match self {
            ExampleFn::ArrayReverse => Ok(reversed(args)),
            ExampleFn::Fibonacci => fibonacci_spec(args),
            ExampleFn::FindMax => Ok(seq![max_byte(args)]),
            ExampleFn::Add => add_spec(args),
            ExampleFn::Sub => sub_spec(args),
            ExampleFn::PrependHello => prepend_hello_spec(args),
        }
    }

    fn call(&self, args: &[u8]) -> (r: Result<Vec<u8>, String>) {
        match self {
            ExampleFn::ArrayReverse => Ok(functions::array_reverse(args)),
            ExampleFn::Fibonacci => functions::fibonacci(args),
            ExampleFn::FindMax => Ok(functions::find_max(args)),
            ExampleFn::Add => functions::add(args),
            ExampleFn::Sub => functions::sub(args),
            ExampleFn::PrependHello => functions::prepend_hello(args),
        }
    }
}

/// The registry of this guest image: each exported function under its name,
/// in this order.
pub fn image_registry() -> (r: Registry<ExampleFn>)
    ensures
        r.wf(),
        r.names() == seq![
            encode_utf8("array_reverse"@),
            encode_utf8("fibonacci"@),
            encode_utf8("find_max"@),
            encode_utf8("add"@),
            encode_utf8("sub"@),
            encode_utf8("prepend_hello"@),
        ],
        r.functions() == seq![
            ExampleFn::ArrayReverse,
            ExampleFn::Fibonacci,
            ExampleFn::FindMax,
            ExampleFn::Add,
            ExampleFn::Sub,
            ExampleFn::PrependHello,
        ],
{
    let mut r: Registry<ExampleFn> = Registry::new();
    let _ = r.register("array_reverse", ExampleFn::ArrayReverse);
    let _ = r.register("fibonacci", ExampleFn::Fibonacci);
    let _ = r.register("find_max", ExampleFn::FindMax);
    let _ = r.register("add", ExampleFn::Add);
    let _ = r.register("sub", ExampleFn::Sub);
    let _ = r.register("prepend_hello", ExampleFn::PrependHello);
    r
}

} // verus!
