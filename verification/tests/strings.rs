use hermes_rs::error::HermesError;
use hermes_rs::header::HermesHeader;
use hermes_rs::hermes_file::{HermesFile, StringTypePair};
use hermes_rs::jenkins::hash_string;
use hermes_rs::string_kind::{
    run_lengths, StringKind, StringKindEntry, StringKindEntryNew, StringKindEntryOld,
};
use hermes_rs::string_table::{
    intern_string, read_stored_string, OverflowStringTableEntry, SmallStringTableEntry,
};
use hermes_rs::text::{chars_of, string_from_chars, string_from_utf8};
use hermes_rs::utf16::{decode_utf16_units_lossy, encode_utf16_units, has_char_above_bmp};

fn pair(s: &str, kind: StringKind) -> StringTypePair {
    StringTypePair { string: s.to_string(), kind }
}

fn file(version: u32) -> HermesFile {
    let mut f = HermesFile::new(Vec::new());
    let mut h = HermesHeader::new();
    h.version = version;
    f.header = h;
    f
}

#[test]
fn string_pairs_round_trip_in_order() {
    let pairs = vec![
        pair("a", StringKind::Identifier),
        pair("b", StringKind::Identifier),
        pair("hello world", StringKind::String),
        pair("", StringKind::String),
        pair("π√∞", StringKind::String),
        pair("c", StringKind::Identifier),
        pair("length", StringKind::Predefined),
        pair("x😀y", StringKind::String),
    ];
    let mut f = file(96);
    f.set_string_pairs_unordered(pairs.clone()).unwrap();
    assert_eq!(f.get_strings_by_kind().unwrap(), pairs);
    assert_eq!(
        f.string_kinds,
        vec![
            StringKindEntry::New(StringKindEntryNew { count: 2, kind: StringKind::Identifier }),
            StringKindEntry::New(StringKindEntryNew { count: 3, kind: StringKind::String }),
            StringKindEntry::New(StringKindEntryNew { count: 1, kind: StringKind::Identifier }),
            StringKindEntry::New(StringKindEntryNew { count: 1, kind: StringKind::Predefined }),
            StringKindEntry::New(StringKindEntryNew { count: 1, kind: StringKind::String }),
        ]
    );
    assert_eq!(f.identifier_hashes, vec![hash_string("a"), hash_string("b"), hash_string("c")]);
    assert_eq!(f.header.string_count, 8);
    assert_eq!(f.header.string_kind_count, 5);
    assert_eq!(f.header.identifier_count, 3);
    assert_eq!(f.header.overflow_string_count, 0);
    assert_eq!(f.header.string_storage_size as usize, f.string_storage_bytes.len());
    let total: u32 = f.string_kinds.iter().map(|k| k.count()).sum();
    assert_eq!(total, f.header.string_count);
}

#[test]
fn bmp_strings_are_utf8_and_others_utf16() {
    let mut f = file(96);
    f.set_strings(vec!["π√∞".to_string(), "π√∞😀".to_string()]).unwrap();
    let first = f.string_storage[0];
    assert!(!first.is_utf_16);
    assert_eq!(first.offset, 0);
    assert_eq!(first.length, 8);
    assert_eq!(&f.string_storage_bytes[0..8], "π√∞".as_bytes());
    let second = f.string_storage[1];
    assert!(second.is_utf_16);
    assert_eq!(second.offset, 8);
    // Three code units of the plane and a surrogate pair, two bytes each.
    assert_eq!(second.length, 5);
    assert_eq!(f.string_storage_bytes.len(), 8 + 10);
    assert_eq!(
        &f.string_storage_bytes[8..],
        &[0xC0, 0x03, 0x1A, 0x22, 0x1E, 0x22, 0x3D, 0xD8, 0x00, 0xDE]
    );
    assert_eq!(f.get_string_from_storage_by_index(0).unwrap(), "π√∞");
    assert_eq!(f.get_string_from_storage_by_index(1).unwrap(), "π√∞😀");
    assert_eq!(f.get_strings().unwrap(), vec!["π√∞".to_string(), "π√∞😀".to_string()]);
}

#[test]
fn the_character_u10000_alone_does_not_make_a_string_utf16() {
    assert!(!has_char_above_bmp(&chars_of("\u{10000}")));
    assert!(has_char_above_bmp(&chars_of("\u{10001}")));
    assert!(!has_char_above_bmp(&chars_of("")));
    let mut f = file(96);
    f.set_strings(vec!["\u{10000}".to_string()]).unwrap();
    assert!(!f.string_storage[0].is_utf_16);
    assert_eq!(f.string_storage[0].length, 4);
    assert_eq!(f.get_string_from_storage_by_index(0).unwrap(), "\u{10000}");
}

#[test]
fn long_string_goes_through_the_overflow_table() {
    let long: String = "x".repeat(300);
    let mut f = file(96);
    f.set_strings(vec!["ab".to_string(), long.clone(), "cd".to_string()]).unwrap();
    assert_eq!(
        f.string_storage,
        vec![
            SmallStringTableEntry { is_utf_16: false, offset: 0, length: 2 },
            SmallStringTableEntry { is_utf_16: false, offset: 0, length: 255 },
            SmallStringTableEntry { is_utf_16: false, offset: 302, length: 2 },
        ]
    );
    assert_eq!(f.overflow_string_storage, vec![OverflowStringTableEntry { offset: 2, length: 300 }]);
    assert_eq!(f.header.overflow_string_count, 1);
    assert_eq!(f.get_string_from_storage_by_index(1).unwrap(), long);
    assert_eq!(f.get_string_from_storage_by_index(1).unwrap().len(), 300);
    assert_eq!(f.get_string_from_storage_by_index(2).unwrap(), "cd");
    assert_eq!(
        f.get_strings_by_kind().unwrap(),
        vec![pair("ab", StringKind::String), pair(&long, StringKind::String), pair("cd", StringKind::String)]
    );
}

#[test]
fn lengths_254_and_255_sit_on_either_side_of_the_overflow_rule() {
    let mut f = file(96);
    f.set_strings(vec!["y".repeat(254), "z".repeat(255)]).unwrap();
    assert_eq!(f.string_storage[0].length, 254);
    assert_eq!(f.string_storage[1].length, 255);
    assert_eq!(f.string_storage[1].offset, 0);
    assert_eq!(f.overflow_string_storage, vec![OverflowStringTableEntry { offset: 254, length: 255 }]);
    assert_eq!(f.get_strings().unwrap(), vec!["y".repeat(254), "z".repeat(255)]);
}

#[test]
fn ordered_strings_take_the_kind_of_their_group() {
    let mut f = file(71);
    f.set_strings_ordered(
        vec![pair("s1", StringKind::Identifier), pair("s2", StringKind::String)],
        vec![pair("i1", StringKind::String)],
        vec![],
    )
    .unwrap();
    assert_eq!(
        f.get_strings_by_kind().unwrap(),
        vec![
            pair("s1", StringKind::String),
            pair("s2", StringKind::String),
            pair("i1", StringKind::Identifier)
        ]
    );
    // Before version 72 the runs have the old layout.
    assert_eq!(
        f.string_kinds,
        vec![
            StringKindEntry::Old(StringKindEntryOld { count: 2, kind: StringKind::String }),
            StringKindEntry::Old(StringKindEntryOld { count: 1, kind: StringKind::Identifier }),
        ]
    );
    assert_eq!(f.identifier_hashes, vec![hash_string("i1")]);
}

#[test]
fn push_string_kind_skips_empty_runs() {
    let mut f = file(72);
    f.push_string_kind(StringKind::String, 0);
    assert!(f.string_kinds.is_empty());
    f.push_string_kind(StringKind::Identifier, 4);
    assert_eq!(
        f.string_kinds,
        vec![StringKindEntry::New(StringKindEntryNew { count: 4, kind: StringKind::Identifier })]
    );
    assert!(f.is_overflowed_value(1 << 17));
    assert!(!f.is_overflowed_value((1 << 17) - 1));
}

#[test]
fn run_lengths_of_kinds() {
    assert_eq!(run_lengths(&vec![], 96), vec![]);
    let kinds = vec![
        StringKind::String,
        StringKind::String,
        StringKind::Predefined,
        StringKind::String,
    ];
    let runs = run_lengths(&kinds, 96);
    assert_eq!(runs.len(), 3);
    assert_eq!((runs[0].count(), runs[0].kind()), (2, StringKind::String));
    assert_eq!((runs[1].count(), runs[1].kind()), (1, StringKind::Predefined));
    assert_eq!((runs[2].count(), runs[2].kind()), (1, StringKind::String));
}

#[test]
fn unreadable_strings_are_reported() {
    let storage = vec![
        SmallStringTableEntry { is_utf_16: false, offset: 0, length: 2 },
        SmallStringTableEntry { is_utf_16: false, offset: 1, length: 3 },
        SmallStringTableEntry { is_utf_16: true, offset: 0, length: 2 },
        SmallStringTableEntry { is_utf_16: false, offset: 0, length: 255 },
        SmallStringTableEntry { is_utf_16: false, offset: 2, length: 1 },
    ];
    let overflow = vec![];
    let bytes = vec![b'o', b'k', 0xFF];
    assert_eq!(read_stored_string(&storage, &overflow, &bytes, 0).unwrap(), "ok");
    // Past the end of the storage.
    assert_eq!(read_stored_string(&storage, &overflow, &bytes, 1), Err(HermesError::MalformedInput));
    assert_eq!(read_stored_string(&storage, &overflow, &bytes, 2), Err(HermesError::MalformedInput));
    // No such overflow entry.
    assert_eq!(read_stored_string(&storage, &overflow, &bytes, 3), Err(HermesError::MalformedInput));
    // Not UTF-8.
    assert_eq!(read_stored_string(&storage, &overflow, &bytes, 4), Err(HermesError::MalformedInput));
    // No such entry.
    assert_eq!(
        read_stored_string(&storage, &overflow, &bytes, 5),
        Err(HermesError::InternalConsistency)
    );
}

#[test]
fn kinds_that_cover_more_strings_than_there_are() {
    let mut f = file(96);
    f.set_strings(vec!["a".to_string()]).unwrap();
    f.string_kinds =
        vec![StringKindEntry::New(StringKindEntryNew { count: 2, kind: StringKind::String })];
    assert_eq!(f.get_strings_by_kind(), Err(HermesError::MalformedInput));
    f.string_kinds = vec![];
    assert_eq!(f.get_strings_by_kind().unwrap(), vec![]);
}

#[test]
fn ill_formed_utf16_is_read_with_replacement_characters() {
    // A lone low surrogate, a lone high surrogate before a plain unit, a pair, a lone high at the end.
    let units = vec![0xDC00, 0xD800, 0x0041, 0xD83D, 0xDE00, 0xD800];
    let chars = decode_utf16_units_lossy(&units);
    assert_eq!(string_from_chars(&chars), "\u{FFFD}\u{FFFD}A😀\u{FFFD}");
    assert_eq!(decode_utf16_units_lossy(&vec![]), vec![]);
    assert_eq!(encode_utf16_units(&chars_of("A😀\u{FFFF}")), vec![0x41, 0xD83D, 0xDE00, 0xFFFF]);
    assert_eq!(encode_utf16_units(&chars_of("\u{10FFFF}")), vec![0xDBFF, 0xDFFF]);

    let storage = vec![SmallStringTableEntry { is_utf_16: true, offset: 0, length: 2 }];
    let bytes = vec![0x00, 0xD8, 0x41, 0x00];
    assert_eq!(read_stored_string(&storage, &vec![], &bytes, 0).unwrap(), "\u{FFFD}A");
}

#[test]
fn text_helpers_go_through_std() {
    assert_eq!(chars_of("aπ😀"), vec!['a', 'π', '😀']);
    assert_eq!(string_from_chars(&vec!['a', 'π', '😀']), "aπ😀");
    assert_eq!(string_from_utf8("aπ".as_bytes().to_vec()), Some("aπ".to_string()));
    assert_eq!(string_from_utf8(vec![0xC3]), None);
    assert_eq!(string_from_utf8(vec![0xED, 0xA0, 0x80]), None);
    assert_eq!(string_from_utf8(vec![]), Some(String::new()));
}

#[test]
fn interning_one_string_at_a_time() {
    let mut storage = vec![];
    let mut overflow = vec![];
    let mut bytes = vec![];
    intern_string(&mut storage, &mut overflow, &mut bytes, "ab").unwrap();
    intern_string(&mut storage, &mut overflow, &mut bytes, "").unwrap();
    intern_string(&mut storage, &mut overflow, &mut bytes, "😀").unwrap();
    assert_eq!(
        storage,
        vec![
            SmallStringTableEntry { is_utf_16: false, offset: 0, length: 2 },
            SmallStringTableEntry { is_utf_16: false, offset: 2, length: 0 },
            SmallStringTableEntry { is_utf_16: true, offset: 2, length: 2 },
        ]
    );
    assert_eq!(bytes, vec![b'a', b'b', 0x3D, 0xD8, 0x00, 0xDE]);
    assert!(overflow.is_empty());
}

#[test]
fn tables_of_a_bmp_string_an_astral_string_and_a_long_string() {
    let mut f = file(95);
    f.set_strings(vec!["π√∞".to_string()]).unwrap();
    assert_eq!(
        f.string_storage,
        vec![SmallStringTableEntry { is_utf_16: false, offset: 0, length: 8 }]
    );
    assert_eq!(f.string_storage_bytes, vec![0xCF, 0x80, 0xE2, 0x88, 0x9A, 0xE2, 0x88, 0x9E]);
    assert_eq!(f.header.string_count, 1);
    assert!(f.overflow_string_storage.is_empty());
    assert!(f.identifier_hashes.is_empty());

    let mut g = file(95);
    g.set_strings_ordered(vec![pair("π√∞\u{1F600}", StringKind::String)], vec![], vec![]).unwrap();
    assert_eq!(
        g.string_storage,
        vec![SmallStringTableEntry { is_utf_16: true, offset: 0, length: 5 }]
    );
    assert_eq!(
        g.string_storage_bytes,
        vec![0xC0, 0x03, 0x1A, 0x22, 0x1E, 0x22, 0x3D, 0xD8, 0x00, 0xDE]
    );

    let mut h = file(95);
    h.set_string_pairs_unordered(vec![
        pair("a", StringKind::String),
        pair(&"x".repeat(300), StringKind::String),
        pair("b", StringKind::String),
    ])
    .unwrap();
    assert_eq!(
        h.string_storage,
        vec![
            SmallStringTableEntry { is_utf_16: false, offset: 0, length: 1 },
            SmallStringTableEntry { is_utf_16: false, offset: 0, length: 255 },
            SmallStringTableEntry { is_utf_16: false, offset: 301, length: 1 },
        ]
    );
    assert_eq!(
        h.overflow_string_storage,
        vec![OverflowStringTableEntry { offset: 1, length: 300 }]
    );
    assert_eq!(h.string_storage_bytes.len(), 302);
    assert_eq!(h.header.string_count, 3);
    assert_eq!(h.header.overflow_string_count, 1);
}
