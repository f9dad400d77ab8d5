use guest_runtime::functions::{HELLO_PREFIX, INVALID_ARGUMENTS};
use guest_runtime::invocation::{ARGS_CAPACITY, NAME_CAPACITY};
use guest_runtime::registry::{FUNCTION_NOT_FOUND, MAX_FUNCTIONS};
use guest_runtime::{
    add, array_reverse, fibonacci, find_max, image_registry, prepend_hello, read_invocation, sub,
    BumpAllocator, Category, ExampleFn, Outcome, Registry, RegistryFull, HEAP_SIZE,
};

fn invoke(name: &str, args: &[u8]) -> Outcome {
    image_registry().run(name.as_bytes(), args)
}

#[test]
fn add_two_bytes_returns_sum() {
    let out = invoke("add", &[2, 3]);
    assert_eq!(out.category(), Category::Return);
    assert_eq!(out, Outcome::Returned(vec![5]));
}

#[test]
fn add_wraps_at_byte_width() {
    assert_eq!(add(&[200, 100]), Ok(vec![44]));
}

#[test]
fn sub_wraps_below_zero() {
    let out = invoke("sub", &[2, 3]);
    assert_eq!(out.category(), Category::Return);
    assert_eq!(out, Outcome::Returned(vec![255]));
    assert_eq!(sub(&[7, 3]), Ok(vec![4]));
}

#[test]
fn add_with_wrong_arity_panics() {
    let out = invoke("add", &[1]);
    assert_eq!(out.category(), Category::Panic);
    assert_eq!(out, Outcome::Panicked(INVALID_ARGUMENTS.to_string()));
    assert!(INVALID_ARGUMENTS.contains("Invalid arguments"));
    assert_eq!(sub(&[1, 2, 3]), Err(INVALID_ARGUMENTS.to_string()));
}

#[test]
fn prepend_hello_greets_argument() {
    let out = invoke("prepend_hello", b"world");
    assert_eq!(out.category(), Category::Return);
    assert_eq!(out, Outcome::Returned(b"hello world".to_vec()));
    assert_eq!(HELLO_PREFIX, "hello ");
    assert_eq!(prepend_hello(b""), Ok(b"hello ".to_vec()));
}

#[test]
fn fibonacci_of_ten() {
    let out = invoke("fibonacci", &10u32.to_le_bytes());
    assert_eq!(out.category(), Category::Return);
    assert_eq!(out, Outcome::Returned(89u32.to_le_bytes().to_vec()));
}

#[test]
fn fibonacci_small_terms() {
    assert_eq!(fibonacci(&0u32.to_le_bytes()), Ok(vec![1, 0, 0, 0]));
    assert_eq!(fibonacci(&1u32.to_le_bytes()), Ok(vec![1, 0, 0, 0]));
    assert_eq!(fibonacci(&2u32.to_le_bytes()), Ok(vec![2, 0, 0, 0]));
    assert_eq!(fibonacci(&300u32.to_le_bytes()).map(|v| v.len()), Ok(4));
}

#[test]
fn fibonacci_wraps_past_u32() {
    // 4807526976 - 2^32
    assert_eq!(fibonacci(&47u32.to_le_bytes()), Ok(512559680u32.to_le_bytes().to_vec()));
}

#[test]
fn fibonacci_rejects_wrong_length() {
    assert_eq!(fibonacci(&[1, 2, 3]), Err(INVALID_ARGUMENTS.to_string()));
    let out = invoke("fibonacci", &[0, 0, 0, 0, 0]);
    assert_eq!(out, Outcome::Panicked(INVALID_ARGUMENTS.to_string()));
}

#[test]
fn unknown_function_panics_not_found() {
    let out = invoke("unknown_fn", &[1, 2, 3]);
    assert_eq!(out.category(), Category::Panic);
    assert_eq!(out, Outcome::Panicked(FUNCTION_NOT_FOUND.to_string()));
    assert!(FUNCTION_NOT_FOUND.to_lowercase().contains("function not found"));
}

#[test]
fn name_match_is_exact() {
    assert_eq!(invoke("ad", &[2, 3]).category(), Category::Panic);
    assert_eq!(invoke("add ", &[2, 3]).category(), Category::Panic);
    assert_eq!(invoke("", &[]).category(), Category::Panic);
}

#[test]
fn array_reverse_reverses() {
    assert_eq!(array_reverse(&[1, 2, 3, 4]), vec![4, 3, 2, 1]);
    assert_eq!(array_reverse(&[]), Vec::<u8>::new());
    assert_eq!(invoke("array_reverse", &[9, 8]), Outcome::Returned(vec![8, 9]));
}

#[test]
fn find_max_picks_largest() {
    assert_eq!(find_max(&[3, 250, 7, 250, 1]), vec![250]);
    assert_eq!(find_max(&[]), vec![0]);
    assert_eq!(invoke("find_max", &[0, 5, 2]), Outcome::Returned(vec![5]));
}

#[test]
fn category_codes() {
    assert_eq!(Category::Panic.code(), 1);
    assert_eq!(Category::Return.code(), 2);
}

#[test]
fn payload_of_each_outcome() {
    assert_eq!(Outcome::Returned(vec![7, 8]).payload(), vec![7, 8]);
    assert_eq!(Outcome::Panicked("boom".to_string()).payload(), b"boom".to_vec());
}

#[test]
fn first_registration_wins() {
    let mut reg = Registry::new();
    assert_eq!(reg.register("f", ExampleFn::Add), Ok(()));
    assert_eq!(reg.register("f", ExampleFn::Sub), Ok(()));
    assert_eq!(reg.len(), 2);
    assert_eq!(reg.run(b"f", &[2, 3]), Outcome::Returned(vec![5]));
}

#[test]
fn registry_overflow_is_refused() {
    let mut reg = Registry::new();
    for _ in 0..MAX_FUNCTIONS {
        assert_eq!(reg.register("f", ExampleFn::FindMax), Ok(()));
    }
    assert_eq!(reg.len(), 128);
    assert_eq!(reg.register("g", ExampleFn::Add), Err(RegistryFull));
    assert_eq!(reg.len(), 128);
    assert_eq!(reg.run(b"g", &[1, 1]).category(), Category::Panic);
}

#[test]
fn empty_registry_finds_nothing() {
    let reg: Registry<ExampleFn> = Registry::new();
    assert_eq!(reg.len(), 0);
    assert_eq!(reg.run(b"add", &[1, 2]), Outcome::Panicked(FUNCTION_NOT_FOUND.to_string()));
}

#[test]
fn rerun_gives_same_outcome() {
    let a = invoke("fibonacci", &20u32.to_le_bytes());
    let b = invoke("fibonacci", &20u32.to_le_bytes());
    assert_eq!(a, b);
}

#[test]
fn heap_fits_exactly_at_boundary() {
    let mut heap = BumpAllocator::new();
    assert_eq!(heap.bump_alloc(HEAP_SIZE - 10, 1), Some(0));
    assert_eq!(heap.bump_alloc(11, 1), None);
    assert_eq!(heap.bump_alloc(10, 1), Some(HEAP_SIZE - 10));
    assert_eq!(heap.bump_alloc(1, 1), None);
    assert_eq!(heap.bump_alloc(0, 1), Some(HEAP_SIZE));
}

#[test]
fn heap_rejects_oversized_request() {
    let mut heap = BumpAllocator::new();
    assert_eq!(heap.bump_alloc(HEAP_SIZE + 1, 1), None);
    assert_eq!(heap.bump_alloc(usize::MAX, 1), None);
    assert_eq!(heap.bump_alloc(HEAP_SIZE, 1), Some(0));
}

#[test]
fn heap_rounds_up_to_alignment() {
    let mut heap = BumpAllocator::new();
    assert_eq!(heap.bump_alloc(3, 1), Some(0));
    assert_eq!(heap.bump_alloc(4, 8), Some(8));
    assert_eq!(heap.bump_alloc(1, 4), Some(12));
    assert_eq!(heap.bump_alloc(2, 1), Some(13));
}

#[test]
fn heap_never_reuses_memory() {
    let mut heap = BumpAllocator::new();
    let first = heap.bump_alloc(16, 1).unwrap();
    heap.dealloc(first, 16);
    let second = heap.bump_alloc(16, 1).unwrap();
    assert_eq!(first, 0);
    assert_eq!(second, 16);
}

#[test]
fn invocation_views_host_buffers() {
    let mut name_buf = [0u8; NAME_CAPACITY];
    name_buf[..3].copy_from_slice(b"add");
    let mut args_buf = vec![0u8; ARGS_CAPACITY];
    args_buf[0] = 2;
    args_buf[1] = 3;
    let (name, args) = read_invocation(&name_buf, 3, &args_buf, 2);
    assert_eq!(name, b"add");
    assert_eq!(args, &[2, 3]);
    assert_eq!(image_registry().run(name, args), Outcome::Returned(vec![5]));
    let (empty_name, empty_args) = read_invocation(&name_buf, 0, &args_buf, 0);
    assert!(empty_name.is_empty() && empty_args.is_empty());
}
