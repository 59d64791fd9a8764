//! The merged `cluster.tier` configuration: the override file's tier
//! section is combined with the topology's replication factors and written
//! as one JSON object that is passed inline to each node.
//!
//! Reading the override file and decoding its YAML happen outside the
//! library; the tier section arrives as named entries whose field values
//! are already JSON fragments.
use vstd::prelude::*;

use crate::text::{digit_char, push_char, str_eq};
use crate::topology::Tier;

verus! {

/// One tier entry of the override file: an empty (null) entry, a mapping
/// of field names to raw JSON fragments, or some other raw JSON value.
#[derive(Clone, Debug)]
pub enum TierVal {
    Null,
    Mapping(Vec<(String, String)>),
    Other(String),
}

/// The ghost shape of one tier entry after null normalization.
pub enum TierValModel {
    Fields(Seq<(Seq<char>, Seq<char>)>),
    Raw(Seq<char>),
}

/// The ghost shape of one entry: a null becomes an empty mapping, as the
/// merge normalizes it.
pub open spec fn tier_val_model(v: TierVal) -> TierValModel {
    match v {
        TierVal::Null => TierValModel::Fields(Seq::empty()),
        TierVal::Mapping(f) => TierValModel::Fields(
            f@.map_values(|p: (String, String)| (p.0@, p.1@)),
        ),
        TierVal::Other(s) => TierValModel::Raw(s@),
    }
}

/// The ghost shape of the whole tier section.
pub open spec fn overrides_model(ov: Seq<(String, TierVal)>) -> Seq<(Seq<char>, TierValModel)> {
    ov.map_values(|p: (String, TierVal)| (p.0@, tier_val_model(p.1)))
}

/// The index of the first field with this name, or the length.
pub open spec fn find_field(fields: Seq<(Seq<char>, Seq<char>)>, key: Seq<char>) -> int
    decreases fields.len(),
{
    if fields.len() == 0 {
        0
    } else if fields[0].0 == key {
        0
    } else {
        1 + find_field(fields.skip(1), key)
    }
}

/// The index of the first entry with this name, or the length.
pub open spec fn find_entry(m: Seq<(Seq<char>, TierValModel)>, key: Seq<char>) -> int
    decreases m.len(),
{
    if m.len() == 0 {
        0
    } else if m[0].0 == key {
        0
    } else {
        1 + find_entry(m.skip(1), key)
    }
}

/// Sets `key` to `value` in a field list: an existing field keeps its
/// place, a new one goes at the end.
pub open spec fn upsert_field(
    fields: Seq<(Seq<char>, Seq<char>)>,
    key: Seq<char>,
    value: Seq<char>,
) -> Seq<(Seq<char>, Seq<char>)> {
    let i = find_field(fields, key);
    if i < fields.len() {
        fields.update(i, (fields[i].0, value))
    } else {
        fields.push((key, value))
    }
}

/// Applies one topology tier: its replication factor overwrites the
/// entry's field when the entry is a mapping, a raw entry stays as it is,
/// and a missing entry is appended with the one field.
pub open spec fn apply_tier(
    m: Seq<(Seq<char>, TierValModel)>,
    name: Seq<char>,
    rf: u8,
) -> Seq<(Seq<char>, TierValModel)> {
    let i = find_entry(m, name);
    if i < m.len() {
        match m[i].1 {
            TierValModel::Fields(f) => m.update(
                i,
                (m[i].0, TierValModel::Fields(
                    upsert_field(f, "replication_factor"@, crate::text::dec_str(rf as int)),
                )),
            ),
            TierValModel::Raw(_) => m,
        }
    } else {
        m.push(
            (name, TierValModel::Fields(
                seq![("replication_factor"@, crate::text::dec_str(rf as int))],
            )),
        )
    }
}

/// The override section with every topology tier applied, in order.
pub open spec fn merge_model(
    m: Seq<(Seq<char>, TierValModel)>,
    tiers: Seq<(String, Tier)>,
) -> Seq<(Seq<char>, TierValModel)>
    decreases tiers.len(),
{
    if tiers.len() == 0 {
        m
    } else {
        apply_tier(
            merge_model(m, tiers.drop_last()),
            tiers.last().0@,
            tiers.last().1.replication_factor,
        )
    }
}

// ---------------------------------------------------------------------------
// JSON writing
// ---------------------------------------------------------------------------

/// A hexadecimal digit character, lower case.
pub open spec fn hex_char(d: int) -> char {
    if d < 10 {
        digit_char(d)
    } else {
        ((87 + d) as u8) as char
    }
}

/// The JSON escape of one character inside a string literal.
pub open spec fn escape_char(c: char) -> Seq<char> {
    if c == '"' {
        seq!['\\', '"']
    } else if c == '\\' {
        seq!['\\', '\\']
    } else if c == '\u{8}' {
        seq!['\\', 'b']
    } else if c == '\u{c}' {
        seq!['\\', 'f']
    } else if c == '\n' {
        seq!['\\', 'n']
    } else if c == '\r' {
        seq!['\\', 'r']
    } else if c == '\t' {
        seq!['\\', 't']
    } else if (c as u32) < 32 {
        seq!['\\', 'u', '0', '0', hex_char(c as u32 as int / 16), hex_char(c as u32 as int % 16)]
    } else {
        seq![c]
    }
}

/// The body of a JSON string literal for `s`.
pub open spec fn json_escape_seq(s: Seq<char>) -> Seq<char>
    decreases s.len(),
{
    if s.len() == 0 {
        Seq::empty()
    } else {
        json_escape_seq(s.drop_last()) + escape_char(s.last())
    }
}

/// A JSON string literal for `s`.
pub open spec fn json_string(s: Seq<char>) -> Seq<char> {
    seq!['"'] + json_escape_seq(s) + seq!['"']
}

/// The comma-joined `"key":value` pairs of a field list.
pub open spec fn fields_json(fields: Seq<(Seq<char>, Seq<char>)>) -> Seq<char>
    decreases fields.len(),
{
    if fields.len() == 0 {
        Seq::empty()
    } else if fields.len() == 1 {
        json_string(fields[0].0) + seq![':'] + fields[0].1
    } else {
        fields_json(fields.drop_last()) + seq![','] + json_string(fields.last().0) + seq![':']
            + fields.last().1
    }
}

/// The JSON text of one tier entry's value.
pub open spec fn tier_val_json(v: TierValModel) -> Seq<char> {
    match v {
        TierValModel::Fields(f) => seq!['{'] + fields_json(f) + seq!['}'],
        TierValModel::Raw(s) => s,
    }
}

/// The comma-joined `"name":value` entries of the tier section.
pub open spec fn entries_json(m: Seq<(Seq<char>, TierValModel)>) -> Seq<char>
    decreases m.len(),
{
    if m.len() == 0 {
        Seq::empty()
    } else if m.len() == 1 {
        json_string(m[0].0) + seq![':'] + tier_val_json(m[0].1)
    } else {
        entries_json(m.drop_last()) + seq![','] + json_string(m.last().0) + seq![':']
            + tier_val_json(m.last().1)
    }
}

/// The whole tier section as one JSON object.
pub open spec fn config_json(m: Seq<(Seq<char>, TierValModel)>) -> Seq<char> {
    seq!['{'] + entries_json(m) + seq!['}']
}

/// Appends the body of a JSON string literal for `s`.
fn append_json_escaped(out: &mut String, s: &str)
    ensures
        final(out)@ == old(out)@ + json_escape_seq(s@),
{
    let len = s.unicode_len();
    let mut i: usize = 0;
    proof {
        assert(s@.take(0) =~= Seq::<char>::empty());
        assert(old(out)@ + json_escape_seq(s@.take(0)) =~= old(out)@);
    }
    while i < len
        invariant
            len == s@.len(),
            0 <= i <= len,
            out@ == old(out)@ + json_escape_seq(s@.take(i as int)),
        decreases len - i,
    {
        let c = s.get_char(i);
        let ghost prefix = out@;
        if c == '"' {
            push_char(out, '\\');
            push_char(out, '"');
            proof {
                assert(out@ =~= prefix + escape_char(c));
            }
        } else if c == '\\' {
            push_char(out, '\\');
            push_char(out, '\\');
            proof {
                assert(out@ =~= prefix + escape_char(c));
            }
        } else if c == '\u{8}' {
            push_char(out, '\\');
            push_char(out, 'b');
            proof {
                assert(out@ =~= prefix + escape_char(c));
            }
        } else if c == '\u{c}' {
            push_char(out, '\\');
            push_char(out, 'f');
            proof {
                assert(out@ =~= prefix + escape_char(c));
            }
        } else if c == '\n' {
            push_char(out, '\\');
            push_char(out, 'n');
            proof {
                assert(out@ =~= prefix + escape_char(c));
            }
        } else if c == '\r' {
            push_char(out, '\\');
            push_char(out, 'r');
            proof {
                assert(out@ =~= prefix + escape_char(c));
            }
        } else if c == '\t' {
            push_char(out, '\\');
            push_char(out, 't');
            proof {
                assert(out@ =~= prefix + escape_char(c));
            }
        } else if (c as u32) < 32 {
            push_char(out, '\\');
            push_char(out, 'u');
            push_char(out, '0');
            push_char(out, '0');
            let v: u32 = c as u32;
            let hi: u32 = v / 16;
            let lo: u32 = v % 16;
            let hic: char = if hi < 10 {
                (48 + hi as u8) as char
            } else {
                (87 + hi as u8) as char
            };
            let loc: char = if lo < 10 {
                (48 + lo as u8) as char
            } else {
                (87 + lo as u8) as char
            };
            push_char(out, hic);
            push_char(out, loc);
            proof {
                assert(hic == hex_char(v as int / 16));
                assert(loc == hex_char(v as int % 16));
                assert(out@ =~= prefix + escape_char(c));
            }
        } else {
            push_char(out, c);
            proof {
                assert(out@ =~= prefix + escape_char(c));
            }
        }
        proof {
            assert(s@.take(i + 1).drop_last() =~= s@.take(i as int));
            assert(s@.take(i + 1).last() == c);
        }
        i = i + 1;
    }
    proof {
        assert(s@.take(len as int) =~= s@);
    }
}

/// Appends a JSON string literal for `s`.
fn append_json_string(out: &mut String, s: &str)
    ensures
        final(out)@ == old(out)@ + json_string(s@),
{
    push_char(out, '"');
    append_json_escaped(out, s);
    push_char(out, '"');
    proof {
        assert(out@ =~= old(out)@ + json_string(s@));
    }
}

// ---------------------------------------------------------------------------
// The merge and its serialization
// ---------------------------------------------------------------------------

/// The ghost shape of a field list.
pub open spec fn fields_model(f: Seq<(String, String)>) -> Seq<(Seq<char>, Seq<char>)> {
    f.map_values(|p: (String, String)| (p.0@, p.1@))
}

proof fn lemma_find_field_at(fields: Seq<(Seq<char>, Seq<char>)>, key: Seq<char>, i: int)
    requires
        0 <= i <= fields.len(),
        forall|j: int| 0 <= j < i ==> (#[trigger] fields[j]).0 != key,
        i == fields.len() || fields[i].0 == key,
    ensures
        find_field(fields, key) == i,
    decreases i,
{
    if i > 0 {
        lemma_find_field_at(fields.skip(1), key, i - 1);
    }
}

proof fn lemma_find_entry_at(m: Seq<(Seq<char>, TierValModel)>, key: Seq<char>, i: int)
    requires
        0 <= i <= m.len(),
        forall|j: int| 0 <= j < i ==> (#[trigger] m[j]).0 != key,
        i == m.len() || m[i].0 == key,
    ensures
        find_entry(m, key) == i,
    decreases i,
{
    if i > 0 {
        lemma_find_entry_at(m.skip(1), key, i - 1);
    }
}

/// Sets `key` to `value` in a field list, replacing an existing field in
/// place and appending a new one.
fn upsert_field_exec(fields: &mut Vec<(String, String)>, key: &str, value: String)
    ensures
        fields_model(final(fields)@) == upsert_field(fields_model(old(fields)@), key@, value@),
{
    let ghost model0 = fields_model(old(fields)@);
    let ghost valv = value@;
    let n = fields.len();
    let mut i: usize = 0;
    while i < n
        invariant
            n == fields@.len(),
            0 <= i <= n,
            fields@ == old(fields)@,
            model0 == fields_model(fields@),
            valv == value@,
            forall|j: int| 0 <= j < i ==> (#[trigger] fields@[j]).0@ != key@,
        decreases n - i,
    {
        if str_eq(fields[i].0.as_str(), key) {
            proof {
                assert(model0.len() == fields@.len());
                assert(model0[i as int] == (fields@[i as int].0@, fields@[i as int].1@));
                assert forall|j: int| 0 <= j < i implies (#[trigger] model0[j]).0 != key@ by {
                    assert(model0[j] == (fields@[j].0@, fields@[j].1@));
                }
                lemma_find_entry_at_fields(model0, key@, i as int);
            }
            let entry = fields.remove(i);
            let entry_key = entry.0;
            fields.insert(i, (entry_key, value));
            proof {
                assert(fields_model(fields@) =~= upsert_field(model0, key@, valv));
            }
            return ;
        }
        i = i + 1;
    }
    proof {
        assert(model0.len() == fields@.len());
        assert forall|j: int| 0 <= j < n implies (#[trigger] model0[j]).0 != key@ by {
            assert(model0[j] == (fields@[j].0@, fields@[j].1@));
        }
        lemma_find_entry_at_fields(model0, key@, n as int);
    }
    fields.push((key.to_owned(), value));
    proof {
        assert(fields_model(fields@) =~= upsert_field(model0, key@, valv));
    }
}

proof fn lemma_find_entry_at_fields(fields: Seq<(Seq<char>, Seq<char>)>, key: Seq<char>, i: int)
    requires
        0 <= i <= fields.len(),
        forall|j: int| 0 <= j < i ==> (#[trigger] fields[j]).0 != key,
        i == fields.len() || fields[i].0 == key,
    ensures
        find_field(fields, key) == i,
{
    lemma_find_field_at(fields, key, i);
}

/// The index of the first entry named `name`, or the length.
fn find_tier_index(m: &Vec<(String, TierVal)>, name: &str) -> (r: usize)
    ensures
        r == find_entry(overrides_model(m@), name@),
        r <= m@.len(),
{
    let n = m.len();
    let mut i: usize = 0;
    while i < n
        invariant
            n == m@.len(),
            0 <= i <= n,
            forall|j: int| 0 <= j < i ==> (#[trigger] m@[j]).0@ != name@,
        decreases n - i,
    {
        if str_eq(m[i].0.as_str(), name) {
            proof {
                let em = overrides_model(m@);
                assert(em.len() == m@.len());
                assert(em[i as int] == (m@[i as int].0@, tier_val_model(m@[i as int].1)));
                assert forall|j: int| 0 <= j < i implies (#[trigger] em[j]).0 != name@ by {
                    assert(em[j] == (m@[j].0@, tier_val_model(m@[j].1)));
                }
                lemma_find_entry_at(em, name@, i as int);
            }
            return i;
        }
        i = i + 1;
    }
    proof {
        let em = overrides_model(m@);
        assert(em.len() == m@.len());
        assert forall|j: int| 0 <= j < n implies (#[trigger] em[j]).0 != name@ by {
            assert(em[j] == (m@[j].0@, tier_val_model(m@[j].1)));
        }
        lemma_find_entry_at(em, name@, n as int);
    }
    n
}

/// A one-field list holding the tier's replication factor.
fn replication_factor_fields(rf: u8) -> (r: Vec<(String, String)>)
    ensures
        fields_model(r@) =~= seq![("replication_factor"@, crate::text::dec_str(rf as int))],
{
    let rf_str = crate::text::u64_to_string(rf as u64);
    let mut f: Vec<(String, String)> = Vec::new();
    f.push(("replication_factor".to_owned(), rf_str));
    f
}

/// Merges the override file's tier section with the topology's
/// replication factors and writes the result as one JSON object: existing
/// entries keep their other fields, `replication_factor` is always the
/// topology's value, null entries become objects, and tiers the file does
/// not mention are appended.
pub fn get_merged_cluster_tier_config(
    overrides: Vec<(String, TierVal)>,
    tiers: &Vec<(String, Tier)>,
) -> (r: String)
    ensures
        r@ == config_json(merge_model(overrides_model(overrides@), tiers@)),
{
    let ghost model0 = overrides_model(overrides@);
    let mut m = overrides;
    let ntier = tiers.len();
    let mut t: usize = 0;
    proof {
        assert(merge_model(model0, tiers@.take(0)) =~= model0);
        assert(tiers@.take(0) =~= Seq::<(String, Tier)>::empty());
    }
    while t < ntier
        invariant
            ntier == tiers@.len(),
            0 <= t <= ntier,
            overrides_model(m@) == merge_model(model0, tiers@.take(t as int)),
        decreases ntier - t,
    {
        let ghost before = overrides_model(m@);
        let name: &String = &tiers[t].0;
        let rf: u8 = tiers[t].1.replication_factor;
        let idx = find_tier_index(&m, name.as_str());
        if idx < m.len() {
            let entry = m.remove(idx);
            let entry_name = entry.0;
            match entry.1 {
                TierVal::Other(o) => {
                    m.insert(idx, (entry_name, TierVal::Other(o)));
                    proof {
                        assert(overrides_model(m@) =~= before);
                        assert(overrides_model(m@) =~= apply_tier(before, name@, rf));
                    }
                },
                TierVal::Null => {
                    let nf = replication_factor_fields(rf);
                    m.insert(idx, (entry_name, TierVal::Mapping(nf)));
                    proof {
                        assert(upsert_field(
                            Seq::<(Seq<char>, Seq<char>)>::empty(),
                            "replication_factor"@,
                            crate::text::dec_str(rf as int),
                        ) =~= seq![("replication_factor"@, crate::text::dec_str(rf as int))]);
                        assert(overrides_model(m@) =~= apply_tier(before, name@, rf));
                    }
                },
                TierVal::Mapping(fields) => {
                    let mut fields = fields;
                    let rf_str = crate::text::u64_to_string(rf as u64);
                    upsert_field_exec(&mut fields, "replication_factor", rf_str);
                    m.insert(idx, (entry_name, TierVal::Mapping(fields)));
                    proof {
                        assert(overrides_model(m@) =~= apply_tier(before, name@, rf));
                    }
                },
            }
        } else {
            let nf = replication_factor_fields(rf);
            m.push((name.clone(), TierVal::Mapping(nf)));
            proof {
                assert(upsert_field(
                    Seq::<(Seq<char>, Seq<char>)>::empty(),
                    "replication_factor"@,
                    crate::text::dec_str(rf as int),
                ) =~= seq![("replication_factor"@, crate::text::dec_str(rf as int))]);
                assert(overrides_model(m@) =~= apply_tier(before, name@, rf));
            }
        }
        proof {
            assert(tiers@.take(t + 1).drop_last() =~= tiers@.take(t as int));
            assert(tiers@.take(t + 1).last() == tiers@[t as int]);
        }
        t = t + 1;
    }
    proof {
        assert(tiers@.take(ntier as int) =~= tiers@);
    }
    serialize_tier_config(&m)
}

/// Appends the JSON text of one entry's value.
fn append_tier_val(out: &mut String, v: &TierVal)
    ensures
        final(out)@ == old(out)@ + tier_val_json(tier_val_model(*v)),
{
    match v {
        TierVal::Null => {
            push_char(out, '{');
            push_char(out, '}');
            proof {
                assert(fields_json(Seq::<(Seq<char>, Seq<char>)>::empty()) =~= Seq::<
                    char,
                >::empty());
                assert(out@ =~= old(out)@ + tier_val_json(tier_val_model(*v)));
            }
        },
        TierVal::Other(s) => {
            out.append(s.as_str());
        },
        TierVal::Mapping(fields) => {
            push_char(out, '{');
            let n = fields.len();
            let ghost fm = fields_model(fields@);
            let ghost base = out@;
            let mut i: usize = 0;
            proof {
                assert(fields_json(fm.take(0)) =~= Seq::<char>::empty());
                assert(out@ =~= base + fields_json(fm.take(0)));
            }
            while i < n
                invariant
                    n == fields@.len(),
                    fm == fields_model(fields@),
                    0 <= i <= n,
                    out@ == base + fields_json(fm.take(i as int)),
                decreases n - i,
            {
                if i > 0 {
                    push_char(out, ',');
                }
                append_json_string(out, fields[i].0.as_str());
                push_char(out, ':');
                out.append(fields[i].1.as_str());
                proof {
                    assert(fm.take(i + 1).drop_last() =~= fm.take(i as int));
                    assert(fm.take(i + 1).last() == fm[i as int]);
                    assert(fm[i as int] == (fields@[i as int].0@, fields@[i as int].1@));
                    assert(out@ =~= base + fields_json(fm.take(i + 1)));
                }
                i = i + 1;
            }
            proof {
                assert(fm.take(n as int) =~= fm);
            }
            push_char(out, '}');
            proof {
                assert(out@ =~= old(out)@ + tier_val_json(tier_val_model(*v)));
            }
        },
    }
}

/// Writes the tier section as one JSON object.
fn serialize_tier_config(m: &Vec<(String, TierVal)>) -> (r: String)
    ensures
        r@ == config_json(overrides_model(m@)),
{
    let mut out = String::new();
    push_char(&mut out, '{');
    let n = m.len();
    let ghost em = overrides_model(m@);
    let ghost base = out@;
    let mut i: usize = 0;
    proof {
        assert(entries_json(em.take(0)) =~= Seq::<char>::empty());
        assert(out@ =~= base + entries_json(em.take(0)));
    }
    while i < n
        invariant
            n == m@.len(),
            em == overrides_model(m@),
            0 <= i <= n,
            out@ == base + entries_json(em.take(i as int)),
        decreases n - i,
    {
        if i > 0 {
            push_char(&mut out, ',');
        }
        append_json_string(&mut out, m[i].0.as_str());
        push_char(&mut out, ':');
        append_tier_val(&mut out, &m[i].1);
        proof {
            assert(em.take(i + 1).drop_last() =~= em.take(i as int));
            assert(em.take(i + 1).last() == em[i as int]);
            assert(em[i as int] == (m@[i as int].0@, tier_val_model(m@[i as int].1)));
            assert(out@ =~= base + entries_json(em.take(i + 1)));
        }
        i = i + 1;
    }
    proof {
        assert(em.take(n as int) =~= em);
    }
    push_char(&mut out, '}');
    proof {
        assert(out@ =~= config_json(em));
    }
    out
}

} // verus!
