//! The names that the extraction looks for, byte by byte.

use crate::load_commands::{LINKEDIT_SEGMENT, TEXT_SEGMENT};
use crate::symbols::{
    ISOLATE_DATA_SYMBOL, ISOLATE_INSTRUCTIONS_SYMBOL, VM_DATA_SYMBOL, VM_INSTRUCTIONS_SYMBOL,
};
use vstd::prelude::*;
use vstd::string::{is_ascii, is_ascii_spec_bytes, StringSliceAdditionalSpecFns};
use vstd::utf8::is_ascii_chars;

verus! {

/// The bytes of `TEXT_SEGMENT`: the ASCII codes of `__TEXT`.
pub proof fn lemma_text_segment_name()
    ensures
        TEXT_SEGMENT.spec_bytes() == seq![
            0x5fu8, 0x5fu8, 0x54u8, 0x45u8, 0x58u8, 0x54u8,
        ],
{
    reveal_strlit("__TEXT");
    let name: &str = "__TEXT";
    assert(TEXT_SEGMENT@ == name@);
    assert(is_ascii_chars(name@));
    assert(is_ascii(name));
    is_ascii_spec_bytes(name);
    assert(name.spec_bytes() =~= seq![
            0x5fu8, 0x5fu8, 0x54u8, 0x45u8, 0x58u8, 0x54u8,
    ]);
}

/// The bytes of `LINKEDIT_SEGMENT`: the ASCII codes of `__LINKEDIT`.
pub proof fn lemma_linkedit_segment_name()
    ensures
        LINKEDIT_SEGMENT.spec_bytes() == seq![
            0x5fu8, 0x5fu8, 0x4cu8, 0x49u8, 0x4eu8, 0x4bu8, 0x45u8, 0x44u8, 0x49u8, 0x54u8,
        ],
{
    reveal_strlit("__LINKEDIT");
    let name: &str = "__LINKEDIT";
    assert(LINKEDIT_SEGMENT@ == name@);
    assert(is_ascii_chars(name@));
    assert(is_ascii(name));
    is_ascii_spec_bytes(name);
    assert(name.spec_bytes() =~= seq![
            0x5fu8, 0x5fu8, 0x4cu8, 0x49u8, 0x4eu8, 0x4bu8, 0x45u8, 0x44u8, 0x49u8, 0x54u8,
    ]);
}

/// The bytes of `VM_DATA_SYMBOL`: the ASCII codes of `_kDartVmSnapshotData`.
pub proof fn lemma_vm_data_symbol_name()
    ensures
        VM_DATA_SYMBOL.spec_bytes() == seq![
            0x5fu8, 0x6bu8, 0x44u8, 0x61u8, 0x72u8, 0x74u8, 0x56u8, 0x6du8, 0x53u8, 0x6eu8,
            0x61u8, 0x70u8, 0x73u8, 0x68u8, 0x6fu8, 0x74u8, 0x44u8, 0x61u8, 0x74u8, 0x61u8,
        ],
{
    reveal_strlit("_kDartVmSnapshotData");
    let name: &str = "_kDartVmSnapshotData";
    assert(VM_DATA_SYMBOL@ == name@);
    assert(is_ascii_chars(name@));
    assert(is_ascii(name));
    is_ascii_spec_bytes(name);
    assert(name.spec_bytes() =~= seq![
            0x5fu8, 0x6bu8, 0x44u8, 0x61u8, 0x72u8, 0x74u8, 0x56u8, 0x6du8, 0x53u8, 0x6eu8,
            0x61u8, 0x70u8, 0x73u8, 0x68u8, 0x6fu8, 0x74u8, 0x44u8, 0x61u8, 0x74u8, 0x61u8,
    ]);
}

/// The bytes of `VM_INSTRUCTIONS_SYMBOL`: the ASCII codes of `_kDartVmSnapshotInstructions`.
pub proof fn lemma_vm_instructions_symbol_name()
    ensures
        VM_INSTRUCTIONS_SYMBOL.spec_bytes() == seq![
            0x5fu8, 0x6bu8, 0x44u8, 0x61u8, 0x72u8, 0x74u8, 0x56u8, 0x6du8, 0x53u8, 0x6eu8,
            0x61u8, 0x70u8, 0x73u8, 0x68u8, 0x6fu8, 0x74u8, 0x49u8, 0x6eu8, 0x73u8, 0x74u8,
            0x72u8, 0x75u8, 0x63u8, 0x74u8, 0x69u8, 0x6fu8, 0x6eu8, 0x73u8,
        ],
{
    reveal_strlit("_kDartVmSnapshotInstructions");
    let name: &str = "_kDartVmSnapshotInstructions";
    assert(VM_INSTRUCTIONS_SYMBOL@ == name@);
    assert(is_ascii_chars(name@));
    assert(is_ascii(name));
    is_ascii_spec_bytes(name);
    assert(name.spec_bytes() =~= seq![
            0x5fu8, 0x6bu8, 0x44u8, 0x61u8, 0x72u8, 0x74u8, 0x56u8, 0x6du8, 0x53u8, 0x6eu8,
            0x61u8, 0x70u8, 0x73u8, 0x68u8, 0x6fu8, 0x74u8, 0x49u8, 0x6eu8, 0x73u8, 0x74u8,
            0x72u8, 0x75u8, 0x63u8, 0x74u8, 0x69u8, 0x6fu8, 0x6eu8, 0x73u8,
    ]);
}

/// The bytes of `ISOLATE_DATA_SYMBOL`: the ASCII codes of `_kDartIsolateSnapshotData`.
pub proof fn lemma_isolate_data_symbol_name()
    ensures
        ISOLATE_DATA_SYMBOL.spec_bytes() == seq![
            0x5fu8, 0x6bu8, 0x44u8, 0x61u8, 0x72u8, 0x74u8, 0x49u8, 0x73u8, 0x6fu8, 0x6cu8,
            0x61u8, 0x74u8, 0x65u8, 0x53u8, 0x6eu8, 0x61u8, 0x70u8, 0x73u8, 0x68u8, 0x6fu8,
            0x74u8, 0x44u8, 0x61u8, 0x74u8, 0x61u8,
        ],
{
    reveal_strlit("_kDartIsolateSnapshotData");
    let name: &str = "_kDartIsolateSnapshotData";
    assert(ISOLATE_DATA_SYMBOL@ == name@);
    assert(is_ascii_chars(name@));
    assert(is_ascii(name));
    is_ascii_spec_bytes(name);
    assert(name.spec_bytes() =~= seq![
            0x5fu8, 0x6bu8, 0x44u8, 0x61u8, 0x72u8, 0x74u8, 0x49u8, 0x73u8, 0x6fu8, 0x6cu8,
            0x61u8, 0x74u8, 0x65u8, 0x53u8, 0x6eu8, 0x61u8, 0x70u8, 0x73u8, 0x68u8, 0x6fu8,
            0x74u8, 0x44u8, 0x61u8, 0x74u8, 0x61u8,
    ]);
}

/// The bytes of `ISOLATE_INSTRUCTIONS_SYMBOL`: the ASCII codes of `_kDartIsolateSnapshotInstructions`.
pub proof fn lemma_isolate_instructions_symbol_name()
    ensures
        ISOLATE_INSTRUCTIONS_SYMBOL.spec_bytes() == seq![
            0x5fu8, 0x6bu8, 0x44u8, 0x61u8, 0x72u8, 0x74u8, 0x49u8, 0x73u8, 0x6fu8, 0x6cu8,
            0x61u8, 0x74u8, 0x65u8, 0x53u8, 0x6eu8, 0x61u8, 0x70u8, 0x73u8, 0x68u8, 0x6fu8,
            0x74u8, 0x49u8, 0x6eu8, 0x73u8, 0x74u8, 0x72u8, 0x75u8, 0x63u8, 0x74u8, 0x69u8,
            0x6fu8, 0x6eu8, 0x73u8,
        ],
{
    reveal_strlit("_kDartIsolateSnapshotInstructions");
    let name: &str = "_kDartIsolateSnapshotInstructions";
    assert(ISOLATE_INSTRUCTIONS_SYMBOL@ == name@);
    assert(is_ascii_chars(name@));
    assert(is_ascii(name));
    is_ascii_spec_bytes(name);
    assert(name.spec_bytes() =~= seq![
            0x5fu8, 0x6bu8, 0x44u8, 0x61u8, 0x72u8, 0x74u8, 0x49u8, 0x73u8, 0x6fu8, 0x6cu8,
            0x61u8, 0x74u8, 0x65u8, 0x53u8, 0x6eu8, 0x61u8, 0x70u8, 0x73u8, 0x68u8, 0x6fu8,
            0x74u8, 0x49u8, 0x6eu8, 0x73u8, 0x74u8, 0x72u8, 0x75u8, 0x63u8, 0x74u8, 0x69u8,
            0x6fu8, 0x6eu8, 0x73u8,
    ]);
}

} // verus!
