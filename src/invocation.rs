use vstd::prelude::*;

verus! {

/// Capacity in bytes of the host's function-name buffer.
pub const NAME_CAPACITY: usize = 255;

/// Capacity in bytes of the host's argument buffer.
pub const ARGS_CAPACITY: usize = 10240;

/// The function name and the argument bytes of the invocation the host left
/// in its two buffers, as views of the first `name_len` and `args_len` bytes.
/// The host sets the lengths within the buffers; nothing is copied and the
/// bytes are not examined.
pub fn read_invocation<'a>(
    name_buf: &'a [u8],
    name_len: usize,
    args_buf: &'a [u8],
    args_len: usize,
) -> (r: (&'a [u8], &'a [u8]))
    requires
        name_len <= name_buf@.len(),
        args_len <= args_buf@.len(),
    ensures
        r.0@ == name_buf@.subrange(0, name_len as int),
        r.1@ == args_buf@.subrange(0, args_len as int),
{
    (
        vstd::slice::slice_subrange(name_buf, 0, name_len),
        vstd::slice::slice_subrange(args_buf, 0, args_len),
    )
}

} // verus!
