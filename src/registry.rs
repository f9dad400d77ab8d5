use vstd::prelude::*;
use vstd::utf8::encode_utf8;
use crate::functions::result_view;

verus! {

/// Most functions one guest image can register.
pub const MAX_FUNCTIONS: usize = 128;

/// Diagnostic of an invocation that names no registered function.
pub const FUNCTION_NOT_FOUND: &'static str = "Function not found";

/// A function a guest image exports: it maps argument bytes to output bytes,
/// or aborts with a diagnostic when the arguments do not suit it.
pub trait GuestFunction {
    /// What the function returns, or the diagnostic it aborts with, on `args`.
    spec fn spec_call(&self, args: Seq<u8>) -> Result<Seq<u8>, Seq<char>>;

    fn call(&self, args: &[u8]) -> (r: Result<Vec<u8>, String>)
        ensures
            result_view(r) == self.spec_call(args@),
    ;
}

/// The kind of report a guest sends to its host.
#[derive(PartialEq, Eq, Structural, Clone, Copy, Debug)]
pub enum Category {
    /// The invocation failed; the payload is a diagnostic.
    Panic,
    /// The invocation succeeded; the payload is the function's output.
    Return,
}

impl Category {
    /// The number that stands for the category at the trap.
    pub fn code(&self) -> (r: u32)
        ensures
            *self == Category::Panic ==> r == 1,
            *self == Category::Return ==> r == 2,
    {
        match self {
            Category::Panic => 1,
            Category::Return => 2,
        }
    }
}

/// The single report of one invocation.
#[derive(Clone, Debug, PartialEq, Eq)]
pub enum Outcome {
    /// The function's output bytes.
    Returned(Vec<u8>),
    /// The diagnostic the invocation failed with.
    Panicked(String),
}

/// An outcome in the model: `Ok` for a return, `Err` for a panic.
pub open spec fn outcome_view(o: Outcome) -> Result<Seq<u8>, Seq<char>> {
    match o {
        Outcome::Returned(v) => Ok(v@),
        Outcome::Panicked(m) => Err(m@),
    }
}

impl Outcome {
    pub fn category(&self) -> (r: Category)
        ensures
            r == Category::Return <==> self is Returned,
            r == Category::Panic <==> self is Panicked,
    {
        match self {
            Outcome::Returned(_) => Category::Return,
            Outcome::Panicked(_) => Category::Panic,
        }
    }

    /// The bytes handed to the host: the output, or the diagnostic's UTF-8
    /// encoding.
    pub fn payload(&self) -> (r: Vec<u8>)
        ensures
            self matches Outcome::Returned(v) ==> r@ == v@,
            self matches Outcome::Panicked(m) ==> r@ == encode_utf8(m@),
    {
        match self {
            Outcome::Returned(v) => v.clone(),
            Outcome::Panicked(m) => vstd::slice::slice_to_vec(m.as_str().as_bytes()),
        }
    }
}

/// The registry is full.
#[derive(PartialEq, Eq, Structural, Clone, Copy, Debug)]
pub struct RegistryFull;

/// `i` is the first position of `name` among `names`.
pub open spec fn is_first_match(names: Seq<Seq<u8>>, name: Seq<u8>, i: int) -> bool {
    &&& 0 <= i < names.len()
    &&& names[i] == name
    &&& forall|j: int| 0 <= j < i ==> names[j] != name
}

/// `name` is registered.
pub open spec fn is_registered(names: Seq<Seq<u8>>, name: Seq<u8>) -> bool {
    exists|i: int| 0 <= i < names.len() && names[i] == name
}

/// The report of invoking `name` with `args` on the entries `names` and
/// `funcs`: what the first function registered under `name` gives, or the
/// panic for a name that nothing is registered under.
pub open spec fn dispatch_outcome<F: GuestFunction>(
    names: Seq<Seq<u8>>,
    funcs: Seq<F>,
    name: Seq<u8>,
    args: Seq<u8>,
) -> Result<Seq<u8>, Seq<char>> {
    if exists|i: int| is_first_match(names, name, i) {
        funcs[choose|i: int| is_first_match(names, name, i)].spec_call(args)
    } else {
        Err(FUNCTION_NOT_FOUND@)
    }
}

/// Whether two byte sequences are equal.
fn bytes_equal(a: &[u8], b: &[u8]) -> (r: bool)
    ensures
        r == (a@ == b@),
{
    if a.len() != b.len() {
        return false;
    }
    let mut i: usize = 0;
    while i < a.len()
        invariant
            a@.len() == b@.len(),
            i <= a@.len(),
            forall|j: int| 0 <= j < i ==> a@[j] == b@[j],
        decreases a@.len() - i,
    {
        if a[i] != b[i] {
            return false;
        }
        i = i + 1;
    }
    assert(a@ =~= b@);
    true
}

/// The functions of one guest image, by name, in the order of registration.
pub struct Registry<F: GuestFunction> {
    names: Vec<Vec<u8>>,
    funcs: Vec<F>,
}

impl<F: GuestFunction> Registry<F> {
    /// The registered names, as bytes, in the order of registration.
    pub closed spec fn names(&self) -> Seq<Seq<u8>> {
        Seq::new(self.names@.len(), |i: int| self.names@[i]@)
    }

    /// The registered functions, in the same order as `names`.
    pub closed spec fn functions(&self) -> Seq<F> {
        self.funcs@
    }

    pub closed spec fn wf(&self) -> bool {
        &&& self.names@.len() == self.funcs@.len()
        &&& self.names@.len() <= MAX_FUNCTIONS
    }

    /// An empty registry.
    pub fn new() -> (r: Self)
        ensures
            r.wf(),
            r.names() == Seq::<Seq<u8>>::empty(),
            r.functions() == Seq::<F>::empty(),
    {
        let r = Registry { names: Vec::new(), funcs: Vec::new() };
        assert(r.names() =~= Seq::<Seq<u8>>::empty());
        r
    }

    /// Number of registered functions.
    pub fn len(&self) -> (r: usize)
        requires
            self.wf(),
        ensures
            r == self.names().len(),
            r == self.functions().len(),
    {
        self.names.len()
    }

    /// Appends `func` under `name`; refused, with the registry unchanged,
    /// when it already holds `MAX_FUNCTIONS` entries.
    pub fn register(&mut self, name: &str, func: F) -> (r: Result<(), RegistryFull>)
        requires
            old(self).wf(),
        ensures
            final(self).wf(),
            r is Err <==> old(self).names().len() == MAX_FUNCTIONS,
            r is Ok ==> final(self).names() == old(self).names().push(encode_utf8(name@)),
            r is Ok ==> final(self).functions() == old(self).functions().push(func),
            r is Err ==> final(self).names() == old(self).names(),
            r is Err ==> final(self).functions() == old(self).functions(),
    {
        if self.names.len() >= MAX_FUNCTIONS {
            return Err(RegistryFull);
        }
        let bytes: Vec<u8> = vstd::slice::slice_to_vec(name.as_bytes());
        let ghost before = self.names();
        self.names.push(bytes);
        self.funcs.push(func);
        assert(self.names() =~= before.push(encode_utf8(name@)));
        Ok(())
    }

    /// Runs the first function registered under `name` on `args` and reports
    /// what it gave; a name that nothing is registered under is a panic.
    pub fn run(&self, name: &[u8], args: &[u8]) -> (r: Outcome)
        requires
            self.wf(),
        ensures
            outcome_view(r) == dispatch_outcome(self.names(), self.functions(), name@, args@),
    {
        let mut i: usize = 0;
        while i < self.names.len()
            invariant
                self.wf(),
                i <= self.names@.len(),
                forall|j: int| 0 <= j < i ==> self.names()[j] != name@,
            decreases self.names@.len() - i,
        {
            if bytes_equal(self.names[i].as_slice(), name) {
                proof {
                    lemma_first_match_unique(self.names(), name@, i as int);
                }
                return match self.funcs[i].call(args) {
                    Ok(v) => Outcome::Returned(v),
                    Err(m) => Outcome::Panicked(m),
                };
            }
            i = i + 1;
        }
        Outcome::Panicked(FUNCTION_NOT_FOUND.to_owned())
    }
}

/// Invoking a registered name runs the function first registered under it:
/// its output comes back, as a return, byte for byte.
pub proof fn lemma_registered_returns<F: GuestFunction>(
    names: Seq<Seq<u8>>,
    funcs: Seq<F>,
    name: Seq<u8>,
    args: Seq<u8>,
    i: int,
    out: Seq<u8>,
)
    requires
        names.len() == funcs.len(),
        is_first_match(names, name, i),
        funcs[i].spec_call(args) == Ok::<Seq<u8>, Seq<char>>(out),
    ensures
        dispatch_outcome(names, funcs, name, args) == Ok::<Seq<u8>, Seq<char>>(out),
{
    lemma_first_match_unique(names, name, i);
}

/// Invoking a name that nothing is registered under is always a panic with
/// the "function not found" diagnostic.
pub proof fn lemma_unregistered_panics<F: GuestFunction>(
    names: Seq<Seq<u8>>,
    funcs: Seq<F>,
    name: Seq<u8>,
    args: Seq<u8>,
)
    requires
        !is_registered(names, name),
    ensures
        dispatch_outcome(names, funcs, name, args) == Err::<Seq<u8>, Seq<char>>(
            FUNCTION_NOT_FOUND@,
        ),
{
}

/// Two registries with the same entries give the same outcome for the same
/// invocation: a fresh guest run on the same name and arguments repeats the
/// result.
pub proof fn lemma_rerun_same_outcome<F: GuestFunction>(
    first: Registry<F>,
    second: Registry<F>,
    name: Seq<u8>,
    args: Seq<u8>,
)
    requires
        first.names() == second.names(),
        first.functions() == second.functions(),
    ensures
        dispatch_outcome(first.names(), first.functions(), name, args) == dispatch_outcome(
            second.names(),
            second.functions(),
            name,
            args,
        ),
{
}

/// A first match is the only one.
proof fn lemma_first_match_unique(names: Seq<Seq<u8>>, name: Seq<u8>, i: int)
    requires
        is_first_match(names, name, i),
    ensures
        (choose|k: int| is_first_match(names, name, k)) == i,
{
    let k = choose|k: int| is_first_match(names, name, k);
    assert(is_first_match(names, name, k));
    if k < i {
        assert(names[k] != name);
    } else if k > i {
        assert(names[i] != name);
    }
}

} // verus!
