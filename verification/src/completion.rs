//! Fixed completion evidence emitted immediately before `execve`.
//!
//! This is evidence that child setup reached the exec boundary, not evidence
//! that `execve` succeeded. Consumers must additionally require the clean
//! CLOEXEC close of the separate status descriptor and no `ChildFailure`.

use vstd::prelude::*;

use crate::bytes::{join16, join32, split16, split32, ByteOrder};

verus! {

/// Size of the caller-prevalidated binding carried by completion evidence.
pub const COMPLETION_BINDING_LEN: usize = 32;

/// Exact byte length of one completion record.
pub const COMPLETION_RECORD_LEN: usize = 42;

/// The filesystem is mounted and the root pivoted.
pub const COMPLETE_MOUNT_PIVOT: u32 = 1;

/// The resource limits are applied.
pub const COMPLETE_RLIMITS: u32 = 2;

/// The capability state is applied.
pub const COMPLETE_CAPABILITIES: u32 = 4;

/// Every descriptor that is not kept is closed.
pub const COMPLETE_FD_CLOSURE: u32 = 8;

/// `NO_NEW_PRIVS` is set.
pub const COMPLETE_NO_NEW_PRIVS: u32 = 16;

/// The seccomp filter is installed.
pub const COMPLETE_SECCOMP: u32 = 32;

/// Protocol-owned bits for the setup primitives completion evidence requires.
///
/// These intentionally do not follow the order of [`crate::Stage`]: that is the
/// failure-reporting protocol and can gain unrelated stages without changing
/// completion evidence.
pub const COMPLETE_STAGE_MASK: u32 = 63;

/// The wire form of a completion record: version, tag, binding and stage mask.
pub open spec fn record_bytes(binding: Seq<u8>, mask: u32) -> Seq<u8> {
    crate::bytes::bytes16(CompletionRecord::VERSION, ByteOrder::Little) + CompletionRecord::TAG@
        + binding + crate::bytes::bytes32(mask, ByteOrder::Little)
}

/// What decoding `bytes` against `binding` comes to: the first of the parts
/// that does not hold what it must, or nothing if every part does.
pub open spec fn decode_error(bytes: Seq<u8>, binding: Seq<u8>) -> Option<CompletionDecodeError> {
    if bytes.len() != COMPLETION_RECORD_LEN {
        Some(CompletionDecodeError::Length)
    } else if bytes.subrange(0, 2) != crate::bytes::bytes16(
        CompletionRecord::VERSION,
        ByteOrder::Little,
    ) {
        Some(CompletionDecodeError::Version)
    } else if bytes.subrange(2, 6) != CompletionRecord::TAG@ {
        Some(CompletionDecodeError::Tag)
    } else if bytes.subrange(6, 38) != binding {
        Some(CompletionDecodeError::Binding)
    } else if bytes.subrange(38, 42) != crate::bytes::bytes32(
        COMPLETE_STAGE_MASK,
        ByteOrder::Little,
    ) {
        Some(CompletionDecodeError::StageMask)
    } else {
        None
    }
}

/// A dedicated, parent-prevalidated destination for completion evidence.
///
/// The fixed-size binding is supplied by the parent before `clone3`; stage
/// bits, statuses, and payload bytes are intentionally not caller inputs.
#[derive(Clone, Copy, Debug)]
pub struct CompletionSink<'a> {
    binding: &'a [u8; COMPLETION_BINDING_LEN],
    fd: i32,
}

/// A decoded completion record. It has no public constructor because the
/// version, tag, and stage mask are runtime protocol constants.
#[derive(Clone, Copy, Debug, PartialEq, Eq)]
pub struct CompletionRecord {
    binding: [u8; COMPLETION_BINDING_LEN],
    complete_stage_mask: u32,
}

/// Why a completion byte sequence was rejected.
#[derive(Clone, Copy, Debug, PartialEq, Eq, Structural)]
pub enum CompletionDecodeError {
    Length,
    Version,
    Tag,
    Binding,
    StageMask,
}

impl<'a> CompletionSink<'a> {
    /// The binding that the record will carry.
    pub closed spec fn spec_binding(self) -> Seq<u8> {
        self.binding@
    }

    /// The descriptor that the record is written to.
    pub closed spec fn spec_fd(self) -> i32 {
        self.fd
    }

    /// Associate a prevalidated fixed binding with its child-write FD.
    pub fn new(binding: &'a [u8; COMPLETION_BINDING_LEN], fd: i32) -> (r: Self)
        ensures
            r.spec_binding() == binding@,
            r.spec_fd() == fd,
    {
        CompletionSink { binding, fd }
    }

    /// The descriptor that the record is written to.
    pub fn fd(self) -> (r: i32)
        ensures
            r == self.spec_fd(),
    {
        self.fd
    }

    /// The record that is written to the sink once the given stages are complete.
    pub(crate) fn record(self, complete_stage_mask: u32) -> (r: [u8; COMPLETION_RECORD_LEN])
        ensures
            r@ == record_bytes(self.spec_binding(), complete_stage_mask),
    {
        let version = split16(CompletionRecord::VERSION, ByteOrder::Little);
        let tag = CompletionRecord::TAG;
        let mask = split32(complete_stage_mask, ByteOrder::Little);
        let mut bytes: [u8; COMPLETION_RECORD_LEN] = [0u8; COMPLETION_RECORD_LEN];
        bytes[0] = version[0];
        bytes[1] = version[1];
        let mut i: usize = 0;
        while i < 4
            invariant
                i <= 4,
                bytes@[0] == version@[0],
                bytes@[1] == version@[1],
                forall|j: int| 0 <= j < i ==> bytes@[2 + j] == tag@[j],
            decreases 4 - i,
        {
            bytes[2 + i] = tag[i];
            i += 1;
        }
        let mut i: usize = 0;
        while i < COMPLETION_BINDING_LEN
            invariant
                i <= COMPLETION_BINDING_LEN,
                bytes@[0] == version@[0],
                bytes@[1] == version@[1],
                forall|j: int| 0 <= j < 4 ==> bytes@[2 + j] == tag@[j],
                forall|j: int| 0 <= j < i ==> bytes@[6 + j] == self.binding@[j],
            decreases COMPLETION_BINDING_LEN - i,
        {
            bytes[6 + i] = self.binding[i];
            i += 1;
        }
        bytes[38] = mask[0];
        bytes[39] = mask[1];
        bytes[40] = mask[2];
        bytes[41] = mask[3];
        proof {
            let whole = record_bytes(self.spec_binding(), complete_stage_mask);
            assert forall|k: int| 0 <= k < 42 implies bytes@[k] == whole[k] by {
                if 2 <= k < 6 {
                    assert(bytes@[2 + (k - 2)] == tag@[k - 2]);
                } else if 6 <= k < 38 {
                    assert(bytes@[6 + (k - 6)] == self.binding@[k - 6]);
                }
            }
            assert(bytes@ =~= whole);
        }
        bytes
    }
}

impl CompletionRecord {
    /// Wire-format version for a completion record.
    pub const VERSION: u16 = 1;

    /// Fixed wire-format tag for a completion record: `PCMP`.
    pub const TAG: [u8; 4] = [80, 67, 77, 80];

    /// A record that was decoded claims exactly the required stages.
    #[verifier::type_invariant]
    closed spec fn is_complete(self) -> bool {
        self.complete_stage_mask == COMPLETE_STAGE_MASK
    }

    /// The binding that the record carries.
    pub closed spec fn spec_binding(self) -> Seq<u8> {
        self.binding@
    }

    /// The stages that the record claims.
    pub closed spec fn spec_mask(self) -> u32 {
        self.complete_stage_mask
    }

    /// Decode exactly one completion record. Partial, concatenated, altered,
    /// or reordered records are rejected.
    pub fn decode(bytes: &[u8], expected_binding: &[u8; COMPLETION_BINDING_LEN]) -> (r: Result<
        Self,
        CompletionDecodeError,
    >)
        ensures
            match decode_error(bytes@, expected_binding@) {
                None => r matches Ok(record) && record.spec_binding() == expected_binding@
                    && record.spec_mask() == COMPLETE_STAGE_MASK,
                Some(e) => r == Err::<Self, CompletionDecodeError>(e),
            },
    {
        if bytes.len() != COMPLETION_RECORD_LEN {
            return Err(CompletionDecodeError::Length);
        }
        let version: u16 = join16(bytes[0], bytes[1], ByteOrder::Little);
        assert(bytes@.subrange(0, 2) =~= seq![bytes@[0], bytes@[1]]);
        if version != Self::VERSION {
            proof {
                if bytes@.subrange(0, 2) == crate::bytes::bytes16(
                    Self::VERSION,
                    ByteOrder::Little,
                ) {
                    crate::bytes::law_bytes16_injective(
                        version,
                        Self::VERSION,
                        ByteOrder::Little,
                    );
                }
            }
            return Err(CompletionDecodeError::Version);
        }
        let tag = Self::TAG;
        let mut i: usize = 0;
        while i < 4
            invariant
                i <= 4,
                bytes@.len() == COMPLETION_RECORD_LEN,
                tag@ == Self::TAG@,
                decode_error(bytes@, expected_binding@) != Some(CompletionDecodeError::Version),
                decode_error(bytes@, expected_binding@) != Some(CompletionDecodeError::Length),
                forall|j: int| 0 <= j < i ==> bytes@[2 + j] == tag@[j],
            decreases 4 - i,
        {
            if bytes[2 + i] != tag[i] {
                assert(bytes@.subrange(2, 6)[i as int] != tag@[i as int]);
                return Err(CompletionDecodeError::Tag);
            }
            i += 1;
        }
        assert(bytes@.subrange(2, 6) =~= Self::TAG@) by {
            assert forall|j: int| 0 <= j < 4 implies bytes@.subrange(2, 6)[j] == tag@[j] by {
                assert(bytes@[2 + j] == tag@[j]);
            }
        }
        let mut binding: [u8; COMPLETION_BINDING_LEN] = [0u8; COMPLETION_BINDING_LEN];
        let mut i: usize = 0;
        while i < COMPLETION_BINDING_LEN
            invariant
                i <= COMPLETION_BINDING_LEN,
                bytes@.len() == COMPLETION_RECORD_LEN,
                decode_error(bytes@, expected_binding@) != Some(CompletionDecodeError::Version),
                decode_error(bytes@, expected_binding@) != Some(CompletionDecodeError::Length),
                decode_error(bytes@, expected_binding@) != Some(CompletionDecodeError::Tag),
                forall|j: int| 0 <= j < i ==> bytes@[6 + j] == expected_binding@[j],
                forall|j: int| 0 <= j < i ==> binding@[j] == expected_binding@[j],
            decreases COMPLETION_BINDING_LEN - i,
        {
            binding[i] = bytes[6 + i];
            if binding[i] != expected_binding[i] {
                assert(bytes@.subrange(6, 38)[i as int] != expected_binding@[i as int]);
                return Err(CompletionDecodeError::Binding);
            }
            i += 1;
        }
        assert(bytes@.subrange(6, 38) =~= expected_binding@) by {
            assert forall|j: int| 0 <= j < 32 implies bytes@.subrange(6, 38)[j]
                == expected_binding@[j] by {
                assert(bytes@[6 + j] == expected_binding@[j]);
            }
        }
        let complete_stage_mask: u32 = join32(
            bytes[38],
            bytes[39],
            bytes[40],
            bytes[41],
            ByteOrder::Little,
        );
        assert(bytes@.subrange(38, 42) =~= seq![bytes@[38], bytes@[39], bytes@[40], bytes@[41]]);
        if complete_stage_mask != COMPLETE_STAGE_MASK {
            proof {
                if bytes@.subrange(38, 42) == crate::bytes::bytes32(
                    COMPLETE_STAGE_MASK,
                    ByteOrder::Little,
                ) {
                    crate::bytes::law_bytes32_injective(
                        complete_stage_mask,
                        COMPLETE_STAGE_MASK,
                        ByteOrder::Little,
                    );
                }
            }
            return Err(CompletionDecodeError::StageMask);
        }
        assert(binding@ =~= expected_binding@);
        Ok(CompletionRecord { binding, complete_stage_mask })
    }

    /// The binding that the record carries.
    pub fn binding(&self) -> (r: &[u8; COMPLETION_BINDING_LEN])
        ensures
            r@ == self.spec_binding(),
    {
        &self.binding
    }

    /// The stages that the record claims: always those that are required.
    pub fn complete_stage_mask(&self) -> (r: u32)
        ensures
            r == self.spec_mask(),
            r == COMPLETE_STAGE_MASK,
    {
        proof {
            use_type_invariant(self);
        }
        self.complete_stage_mask
    }
}

/// Decoding accepts exactly one byte sequence: the record of the expected
/// binding with every required stage complete.
pub proof fn law_decode_accepts_one_record(bytes: Seq<u8>, binding: Seq<u8>)
    requires
        binding.len() == COMPLETION_BINDING_LEN,
    ensures
        decode_error(bytes, binding) is None <==> bytes == record_bytes(
            binding,
            COMPLETE_STAGE_MASK,
        ),
{
    let whole = record_bytes(binding, COMPLETE_STAGE_MASK);
    assert(whole.subrange(0, 2) =~= crate::bytes::bytes16(
        CompletionRecord::VERSION,
        ByteOrder::Little,
    ));
    assert(whole.subrange(2, 6) =~= CompletionRecord::TAG@);
    assert(whole.subrange(6, 38) =~= binding);
    assert(whole.subrange(38, 42) =~= crate::bytes::bytes32(
        COMPLETE_STAGE_MASK,
        ByteOrder::Little,
    ));
    if decode_error(bytes, binding) is None {
        assert(bytes =~= bytes.subrange(0, 2) + bytes.subrange(2, 6) + bytes.subrange(6, 38)
            + bytes.subrange(38, 42));
    }
}

/// A record that claims any other set of stages is rejected, for its mask.
pub proof fn law_incomplete_record_is_rejected(binding: Seq<u8>, mask: u32)
    requires
        binding.len() == COMPLETION_BINDING_LEN,
        mask != COMPLETE_STAGE_MASK,
    ensures
        decode_error(record_bytes(binding, mask), binding) == Some(
            CompletionDecodeError::StageMask,
        ),
{
    let whole = record_bytes(binding, mask);
    assert(whole.subrange(0, 2) =~= crate::bytes::bytes16(
        CompletionRecord::VERSION,
        ByteOrder::Little,
    ));
    assert(whole.subrange(2, 6) =~= CompletionRecord::TAG@);
    assert(whole.subrange(6, 38) =~= binding);
    assert(whole.subrange(38, 42) =~= crate::bytes::bytes32(mask, ByteOrder::Little));
    if crate::bytes::bytes32(mask, ByteOrder::Little) == crate::bytes::bytes32(
        COMPLETE_STAGE_MASK,
        ByteOrder::Little,
    ) {
        crate::bytes::law_bytes32_injective(mask, COMPLETE_STAGE_MASK, ByteOrder::Little);
    }
}

/// A completion record is version one, the letters `PCMP`, the binding and the
/// stages, each at its own place; numbers have their lowest byte first.
pub proof fn law_places_in_a_completion_record(binding: Seq<u8>, mask: u32, i: int)
    requires
        binding.len() == COMPLETION_BINDING_LEN,
    ensures
        record_bytes(binding, mask).len() == 42,
        record_bytes(binding, mask)[0] == 1 && record_bytes(binding, mask)[1] == 0,
        record_bytes(binding, mask).subrange(2, 6) == seq![80u8, 67u8, 77u8, 80u8],
        0 <= i < COMPLETION_BINDING_LEN ==> record_bytes(binding, mask)[6 + i] == binding[i],
        record_bytes(binding, mask)[38] + 0x100 * record_bytes(binding, mask)[39] + 0x1_0000
            * record_bytes(binding, mask)[40] + 0x100_0000 * record_bytes(binding, mask)[41]
            == mask,
{
    let r = record_bytes(binding, mask);
    crate::bytes::lemma_digits32(mask, ByteOrder::Little);
    let m = crate::bytes::bytes32(mask, ByteOrder::Little);
    assert(r[38] == m[0] && r[39] == m[1] && r[40] == m[2] && r[41] == m[3]);
    assert(r.subrange(2, 6) =~= seq![80u8, 67u8, 77u8, 80u8]);
}

/// What was written is accepted where its binding is expected and every required
/// stage is complete, and nowhere else; what is given back is what was written.
pub proof fn law_decoding_undoes_writing(
    binding: Seq<u8>,
    mask: u32,
    slice: &[u8],
    expected: [u8; COMPLETION_BINDING_LEN],
    r: Result<CompletionRecord, CompletionDecodeError>,
)
    requires
        binding.len() == COMPLETION_BINDING_LEN,
        slice@ == record_bytes(binding, mask),
        call_ensures(CompletionRecord::decode, (slice, &expected), r),
    ensures
        r is Ok <==> binding == expected@ && mask == COMPLETE_STAGE_MASK,
        r matches Ok(record) ==> record.spec_binding() == binding && record.spec_mask() == mask,
        r == Err::<CompletionRecord, CompletionDecodeError>(CompletionDecodeError::Binding)
            <==> binding != expected@,
        r == Err::<CompletionRecord, CompletionDecodeError>(CompletionDecodeError::StageMask)
            <==> binding == expected@ && mask != COMPLETE_STAGE_MASK,
{
    let whole = record_bytes(binding, mask);
    assert(whole.subrange(0, 2) =~= crate::bytes::bytes16(
        CompletionRecord::VERSION,
        ByteOrder::Little,
    ));
    assert(whole.subrange(2, 6) =~= CompletionRecord::TAG@);
    assert(whole.subrange(6, 38) =~= binding);
    assert(whole.subrange(38, 42) =~= crate::bytes::bytes32(mask, ByteOrder::Little));
    if crate::bytes::bytes32(mask, ByteOrder::Little) == crate::bytes::bytes32(
        COMPLETE_STAGE_MASK,
        ByteOrder::Little,
    ) {
        crate::bytes::law_bytes32_injective(mask, COMPLETE_STAGE_MASK, ByteOrder::Little);
    }
}

/// Anything that differs from a record is rejected for the first part that differs:
/// its length, its version, its tag, its binding, or its stages.
pub proof fn law_first_wrong_part_is_named(
    slice: &[u8],
    expected: [u8; COMPLETION_BINDING_LEN],
    r: Result<CompletionRecord, CompletionDecodeError>,
    i: int,
)
    requires
        call_ensures(CompletionRecord::decode, (slice, &expected), r),
    ensures
        slice@.len() != 42 ==> r == Err::<CompletionRecord, CompletionDecodeError>(
            CompletionDecodeError::Length,
        ),
        slice@.len() == 42 ==> {
            let version_is_right = slice@[0] == 1 && slice@[1] == 0;
            let tag_is_right = slice@[2] == 80 && slice@[3] == 67 && slice@[4] == 77 && slice@[5]
                == 80;
            let mask_is_right = slice@[38] == 63 && slice@[39] == 0 && slice@[40] == 0 && slice@[41]
                == 0;
            &&& !version_is_right ==> r == Err::<CompletionRecord, CompletionDecodeError>(
                CompletionDecodeError::Version,
            )
            &&& version_is_right && !tag_is_right ==> r == Err::<
                CompletionRecord,
                CompletionDecodeError,
            >(CompletionDecodeError::Tag)
            &&& version_is_right && tag_is_right && 0 <= i < 32 && slice@[6 + i] != expected@[i]
                ==> r == Err::<CompletionRecord, CompletionDecodeError>(
                CompletionDecodeError::Binding,
            )
            &&& version_is_right && tag_is_right && (forall|k: int|
                0 <= k < 32 ==> slice@[6 + k] == #[trigger] expected@[k]) && !mask_is_right ==> r
                == Err::<CompletionRecord, CompletionDecodeError>(CompletionDecodeError::StageMask)
            &&& r is Ok <==> version_is_right && tag_is_right && mask_is_right && (forall|k: int|
                0 <= k < 32 ==> slice@[6 + k] == #[trigger] expected@[k])
        },
{
    let bytes = slice@;
    if bytes.len() == 42 {
        let version = crate::bytes::bytes16(CompletionRecord::VERSION, ByteOrder::Little);
        let mask = crate::bytes::bytes32(COMPLETE_STAGE_MASK, ByteOrder::Little);
        assert(version =~= seq![1u8, 0u8]);
        assert(mask =~= seq![63u8, 0u8, 0u8, 0u8]);
        assert(bytes.subrange(0, 2) =~= seq![bytes[0], bytes[1]]);
        assert(bytes.subrange(2, 6) =~= seq![bytes[2], bytes[3], bytes[4], bytes[5]]);
        assert(CompletionRecord::TAG@ =~= seq![80u8, 67u8, 77u8, 80u8]);
        assert(bytes.subrange(38, 42) =~= seq![bytes[38], bytes[39], bytes[40], bytes[41]]);
        assert(seq![bytes[0], bytes[1]][0] == bytes[0] && seq![bytes[0], bytes[1]][1] == bytes[1]);
        let t = seq![bytes[2], bytes[3], bytes[4], bytes[5]];
        assert(t[0] == bytes[2] && t[1] == bytes[3] && t[2] == bytes[4] && t[3] == bytes[5]);
        let m = seq![bytes[38], bytes[39], bytes[40], bytes[41]];
        assert(m[0] == bytes[38] && m[1] == bytes[39] && m[2] == bytes[40] && m[3] == bytes[41]);
        if bytes.subrange(6, 38) == expected@ {
            assert forall|k: int| 0 <= k < 32 implies bytes[6 + k] == #[trigger] expected@[k] by {
                assert(bytes.subrange(6, 38)[k] == bytes[6 + k]);
            }
        }
        if forall|k: int| 0 <= k < 32 ==> bytes[6 + k] == #[trigger] expected@[k] {
            assert(bytes.subrange(6, 38) =~= expected@);
        }
        if 0 <= i < 32 {
            assert(bytes.subrange(6, 38)[i] == bytes[6 + i]);
        }
    }
}

/// A sink holds the binding and the descriptor that it was made with, and gives its
/// descriptor back; a record gives its binding back, and claims every required stage.
pub proof fn law_sink_is_as_it_was_made(
    binding: [u8; COMPLETION_BINDING_LEN],
    fd: i32,
    sink: CompletionSink,
    given: i32,
    record: CompletionRecord,
    bound: &[u8; COMPLETION_BINDING_LEN],
    mask: u32,
)
    requires
        call_ensures(CompletionSink::new, (&binding, fd), sink),
        call_ensures(CompletionSink::fd, (sink,), given),
        call_ensures(CompletionRecord::binding, (&record,), bound),
        call_ensures(CompletionRecord::complete_stage_mask, (&record,), mask),
    ensures
        sink.spec_binding() == binding@,
        sink.spec_fd() == fd,
        given == fd,
        bound@ == record.spec_binding(),
        mask == 63,
{
}

} // verus!
