//! Java `byte[]` arrays: the conversion between Java's signed bytes and the
//! enclave's unsigned ones, and the decisions taken while reading an array.
//!
//! Reading an array takes two JNI calls: its length, then its contents.
//! Between them the bridge decides how many bytes to read, or fails.

use vstd::prelude::*;
use crate::error::{Fault, JniFailed, PossibleError, RUNTIME_EXCEPTION_CLASS, is_generic_fault, jni_fault};
use crate::text::{decimal, push_decimal, push_signed_decimal, signed_decimal};

verus! {

/// The Java bytes holding the same bit patterns as `bytes`.
pub open spec fn jbytes_of(bytes: Seq<u8>) -> Seq<i8> {
    bytes.map_values(|b: u8| b as i8)
}

/// The unsigned bytes holding the same bit patterns as the Java `jbytes`.
pub open spec fn bytes_of(jbytes: Seq<i8>) -> Seq<u8> {
    jbytes.map_values(|b: i8| b as u8)
}

/// Reinterprets unsigned bytes as Java bytes.
pub fn to_jbytes(data: &[u8]) -> (res: Vec<i8>)
    ensures
        res@ == jbytes_of(data@),
        res@.len() == data@.len(),
        forall|i: int| 0 <= i < data@.len() ==> #[trigger] res@[i] == data@[i] as i8,
{
    let mut res: Vec<i8> = Vec::new();
    let mut i: usize = 0;
    while i < data.len()
        invariant
            i <= data@.len(),
            res@ == jbytes_of(data@.subrange(0, i as int)),
        decreases data@.len() - i,
    {
        res.push(data[i] as i8);
        proof {
            assert(data@.subrange(0, i + 1) =~= data@.subrange(0, i as int).push(data@[i as int]));
            assert(jbytes_of(data@.subrange(0, i + 1)) =~= jbytes_of(data@.subrange(0, i as int)).push(data@[i as int] as i8));
        }
        i = i + 1;
    }
    proof {
        assert(data@.subrange(0, data@.len() as int) =~= data@);
    }
    res
}

/// Reinterprets Java bytes as unsigned bytes.
pub fn from_jbytes(data: &[i8]) -> (res: Vec<u8>)
    ensures
        res@ == bytes_of(data@),
        res@.len() == data@.len(),
        forall|i: int| 0 <= i < data@.len() ==> #[trigger] res@[i] == data@[i] as u8,
{
    let mut res: Vec<u8> = Vec::new();
    let mut i: usize = 0;
    while i < data.len()
        invariant
            i <= data@.len(),
            res@ == bytes_of(data@.subrange(0, i as int)),
        decreases data@.len() - i,
    {
        res.push(data[i] as u8);
        proof {
            assert(data@.subrange(0, i + 1) =~= data@.subrange(0, i as int).push(data@[i as int]));
            assert(bytes_of(data@.subrange(0, i + 1)) =~= bytes_of(data@.subrange(0, i as int)).push(data@[i as int] as u8));
        }
        i = i + 1;
    }
    proof {
        assert(data@.subrange(0, data@.len() as int) =~= data@);
    }
    res
}

/// A Java array made from `bytes` has the same length, and at each
/// position the Java byte with the bit pattern of the byte at that same
/// position.
pub proof fn lemma_jbytes_of_keeps_positions(bytes: Seq<u8>)
    ensures
        jbytes_of(bytes).len() == bytes.len(),
        forall|i: int| 0 <= i < bytes.len() ==> #[trigger] jbytes_of(bytes)[i] == bytes[i] as i8,
{
}

/// Java bytes read into the enclave's form keep their length and their
/// positions: at each position the unsigned byte with the bit pattern of
/// the Java byte at that same position.
pub proof fn lemma_bytes_of_keeps_positions(jbytes: Seq<i8>)
    ensures
        bytes_of(jbytes).len() == jbytes.len(),
        forall|i: int| 0 <= i < jbytes.len() ==> #[trigger] bytes_of(jbytes)[i] == jbytes[i] as u8,
{
}

/// Bytes written to Java and read back are the bytes written.
pub proof fn lemma_bytes_round_trip(bytes: Seq<u8>)
    ensures
        bytes_of(jbytes_of(bytes)) == bytes,
{
    assert forall|i: int| 0 <= i < bytes.len() implies #[trigger] bytes_of(jbytes_of(bytes))[i] == bytes[i] by {
        let b: u8 = bytes[i];
        assert((b as i8) as u8 == b) by (bit_vector);
    }
    assert(bytes_of(jbytes_of(bytes)) =~= bytes);
}

/// Java bytes read into the enclave's form and written back are unchanged.
pub proof fn lemma_jbytes_round_trip(jbytes: Seq<i8>)
    ensures
        jbytes_of(bytes_of(jbytes)) == jbytes,
{
    assert forall|i: int| 0 <= i < jbytes.len() implies #[trigger] jbytes_of(bytes_of(jbytes))[i] == jbytes[i] by {
        let b: i8 = jbytes[i];
        assert((b as u8) as i8 == b) by (bit_vector);
    }
    assert(jbytes_of(bytes_of(jbytes)) =~= jbytes);
}

/// A Java `byte[]` to be created: the length passed to `NewByteArray` and
/// the contents to store in it.
#[derive(Debug)]
pub struct JByteArrayImage {
    pub length: i32,
    pub contents: Vec<i8>,
}

/// The Java array that holds `data`. Its length is the length of `data`
/// as a Java `int`.
pub fn jni_array_image(data: &[u8]) -> (res: JByteArrayImage)
    ensures
        res.length == data@.len() as i32,
        res.contents@ == jbytes_of(data@),
        res.contents@.len() == data@.len(),
        forall|i: int| 0 <= i < data@.len() ==> #[trigger] res.contents@[i] == data@[i] as i8,
{
    JByteArrayImage { length: data.len() as i32, contents: to_jbytes(data) }
}

/// What an array being read is expected to be: of an exact length, or of
/// any length.
#[derive(Debug)]
pub enum ArrayShape {
    Exact(usize),
    Any,
}

/// The message of the error for an array of the wrong length.
pub open spec fn length_mismatch_msg(expected: nat, got: int) -> Seq<char> {
    "expected "@ + decimal(expected) + " length, got "@ + signed_decimal(got) + " length array"@
}

/// Decides how many bytes to read from an array once the JVM has told its
/// length: the exact length asked for (a `RuntimeException` when the array
/// has another length), or any length that can be allocated (a negative
/// one cannot: the allocation panics).
pub fn array_read_count(shape: ArrayShape, length: Result<i32, JniFailed>) -> (res: Result<usize, Fault>)
    ensures
        match length {
            Err(_) => res == Err::<usize, Fault>(jni_fault()),
            Ok(len) => match shape {
                ArrayShape::Exact(n) => if len as usize == n {
                    res == Ok::<usize, Fault>(n)
                } else {
                    res matches Err(f) && is_generic_fault(f, RUNTIME_EXCEPTION_CLASS@, length_mismatch_msg(n as nat, len as int))
                },
                ArrayShape::Any => if len < 0 {
                    res == Err::<usize, Fault>(Fault::Panicked)
                } else {
                    res == Ok::<usize, Fault>(len as usize)
                },
            },
        },
{
    match length {
        Err(_) => Err(Fault::Raised(PossibleError::AlreadyThrown)),
        Ok(len) => match shape {
            ArrayShape::Exact(n) => {
                if len as usize == n {
                    Ok(n)
                } else {
                    let mut msg = String::from_str("expected ");
                    push_decimal(&mut msg, n as u64);
                    msg.append(" length, got ");
                    push_signed_decimal(&mut msg, len as i64);
                    msg.append(" length array");
                    Err(Fault::Raised(PossibleError::Generic {
                        class: String::from_str(RUNTIME_EXCEPTION_CLASS),
                        msg: msg,
                    }))
                }
            },
            ArrayShape::Any => {
                if len < 0 {
                    Err(Fault::Panicked)
                } else {
                    Ok(len as usize)
                }
            },
        },
    }
}

/// The buffer an array's contents are copied into: `count` zero bytes.
pub fn array_read_buffer(count: usize) -> (res: Vec<i8>)
    ensures
        res@.len() == count,
        forall|i: int| 0 <= i < count ==> res@[i] == 0,
{
    let mut res: Vec<i8> = Vec::new();
    let mut i: usize = 0;
    while i < count
        invariant
            i <= count,
            res@.len() == i,
            forall|k: int| 0 <= k < i ==> res@[k] == 0,
        decreases count - i,
    {
        res.push(0);
        i = i + 1;
    }
    res
}

/// Finishes reading an array of `count` bytes: the contents the JVM copied
/// into the buffer of `array_read_buffer(count)`, as unsigned bytes.
pub fn array_read_finish(count: usize, region: Result<Vec<i8>, JniFailed>) -> (res: Result<Vec<u8>, Fault>)
    requires
        region matches Ok(buf) ==> buf@.len() == count,
    ensures
        match region {
            Err(_) => res == Err::<Vec<u8>, Fault>(jni_fault()),
            Ok(buf) => res matches Ok(bytes) && bytes@ == bytes_of(buf@) && bytes@.len() == count
                && forall|i: int| 0 <= i < count ==> #[trigger] bytes@[i] == buf@[i] as u8,
        },
{
    match region {
        Err(_) => Err(Fault::Raised(PossibleError::AlreadyThrown)),
        Ok(buf) => Ok(from_jbytes(buf.as_slice())),
    }
}

} // verus!
