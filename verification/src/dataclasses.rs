//! The dataclasses plugin's `__init__` / `__post_init__` signature seams.
//!
//! Python serializes the `@dataclass` field metadata; the library decodes
//! it, computes the argument list (names and kinds) of the synthesized
//! method, and encodes that list back into the signature wire format.
//! Unsupported or malformed input yields `None`, and Python keeps its own
//! computation for it.

use vstd::prelude::*;
use vstd::string::StringSliceAdditionalSpecFns;
use vstd::utf8::encode_utf8;

use crate::wire::{
    int_len, is_short_int, lemma_int_roundtrip, lemma_str_roundtrip, read_bool_at, read_int_at,
    read_str_at, spec_bool_bytes, spec_int_bytes, spec_read_bool, spec_read_int, spec_read_str,
    spec_str_bytes, write_int_bare, LONG_INT_TRAILER, MAX_FOUR_BYTES_INT, MIN_FOUR_BYTES_INT,
};

verus! {

/// Tag of a serialized field descriptor.
pub const DC_FIELD: u8 = 210;

/// Tag of a serialized signature.
pub const DC_INIT_SIG: u8 = 211;

/// Tag of the `None` return type.
pub const NONE_TYPE: u8 = 108;

/// Tag that closes a serialized record.
pub const END_TAG: u8 = 255;

/// The largest field count the decoder accepts.
pub const MAX_FIELD_COUNT: i64 = 1000;

/// Argument kinds, as the ordinals of `mypy.nodes.ArgumentKind`.
pub const ARG_POS: i64 = 0;

pub const ARG_OPT: i64 = 1;

pub const ARG_NAMED: i64 = 3;

pub const ARG_NAMED_OPT: i64 = 5;

/// A single `@dataclass` field as Python serializes it.
pub struct Field {
    pub name: String,
    pub alias: String,
    pub has_default: bool,
    pub kw_only: bool,
    pub is_in_init: bool,
    pub is_init_var: bool,
}

/// The abstract content of a field: its texts as character sequences.
pub struct FieldSpec {
    pub name: Seq<char>,
    pub alias: Seq<char>,
    pub has_default: bool,
    pub kw_only: bool,
    pub is_in_init: bool,
    pub is_init_var: bool,
}

impl View for Field {
    type V = FieldSpec;

    open spec fn view(&self) -> FieldSpec {
        FieldSpec {
            name: self.name@,
            alias: self.alias@,
            has_default: self.has_default,
            kw_only: self.kw_only,
            is_in_init: self.is_in_init,
            is_init_var: self.is_init_var,
        }
    }
}

/// The abstract content of a list of fields.
pub open spec fn fields_view(fields: Seq<Field>) -> Seq<FieldSpec> {
    fields.map_values(|f: Field| f@)
}

/// An argument: its name and its kind.
pub type ArgSpec = (Seq<char>, i64);

/// The abstract content of an argument list.
pub open spec fn args_view(args: Seq<(String, i64)>) -> Seq<ArgSpec> {
    args.map_values(|a: (String, i64)| (a.0@, a.1))
}

// ---------------------------------------------------------------------------
// Decoding the field list
// ---------------------------------------------------------------------------

/// Decode the four flags of a field at the start of `s`.
pub open spec fn spec_read_flags(s: Seq<u8>) -> Option<(bool, bool, bool, bool)> {
    if s.len() < 4 {
        None
    } else {
        match (
        spec_read_bool(s),
        spec_read_bool(s.skip(1)),
        spec_read_bool(s.skip(2)),
        spec_read_bool(s.skip(3)),
    ) {
            (Some(a), Some(b), Some(c), Some(d)) => Some((a, b, c, d)),
            _ => None,
        }
    }
}

/// Decode one field descriptor (without its tag) at the start of `s`: the
/// field and the number of bytes it took.
#[verifier::opaque]
pub open spec fn spec_read_field(s: Seq<u8>) -> Option<(FieldSpec, int)> {
    match spec_read_str(s) {
        Some((name, n1)) => match spec_read_str(s.skip(n1)) {
            Some((alias, n2)) => match spec_read_flags(s.skip(n1 + n2)) {
                Some((has_default, kw_only, is_in_init, is_init_var)) => Some(
                    (
                        FieldSpec { name, alias, has_default, kw_only, is_in_init, is_init_var },
                        n1 + n2 + 4,
                    ),
                ),
                None => None,
            },
            None => None,
        },
        None => None,
    }
}

/// Decode `count` tagged field descriptors at the start of `s`.
pub open spec fn spec_read_field_list(s: Seq<u8>, count: nat) -> Option<(Seq<FieldSpec>, int)>
    decreases count,
{
    if count == 0 {
        Some((seq![], 0))
    } else if s.len() == 0 || s[0] != DC_FIELD {
        None
    } else {
        match spec_read_field(s.skip(1)) {
            Some((f, n)) => match spec_read_field_list(s.skip(1 + n), (count - 1) as nat) {
                Some((rest, m)) => Some((seq![f] + rest, 1 + n + m)),
                None => None,
            },
            None => None,
        }
    }
}

/// Decode the full field list: a field count between `0` and
/// `MAX_FIELD_COUNT`, then that many tagged descriptors. Bytes after the
/// last descriptor are not read.
pub open spec fn spec_deserialize_fields(s: Seq<u8>) -> Option<Seq<FieldSpec>> {
    if s.len() == 0 || s[0] == LONG_INT_TRAILER {
        None
    } else {
        match spec_read_int(s) {
            Some((count, n)) => {
                if 0 <= count <= MAX_FIELD_COUNT {
                    match spec_read_field_list(s.skip(n), count as nat) {
                        Some((fields, _)) => Some(fields),
                        None => None,
                    }
                } else {
                    None
                }
            },
            None => None,
        }
    }
}


/// Read one field descriptor (without its tag) at `pos`; on success the
/// field and the position just after it.
fn read_field_at(data: &[u8], pos: usize) -> (r: Option<(Field, usize)>)
    requires
        pos <= data.len(),
    ensures
        match r {
            Some((f, next)) => pos < next <= data.len() && spec_read_field(
                data@.subrange(pos as int, data.len() as int),
            ) == Some((f@, next - pos)),
            None => spec_read_field(data@.subrange(pos as int, data.len() as int)) is None,
        },
{
    reveal(spec_read_field);
    let ghost s = data@.subrange(pos as int, data.len() as int);
    let (name, p1) = match read_str_at(data, pos) {
        Some(r) => r,
        None => return None,
    };
    assert(data@.subrange(p1 as int, data.len() as int) =~= s.skip(p1 - pos));
    let (alias, p2) = match read_str_at(data, p1) {
        Some(r) => r,
        None => return None,
    };
    assert(data@.subrange(p2 as int, data.len() as int) =~= s.skip(p2 - pos));
    let ghost t = s.skip(p2 - pos);
    if data.len() - p2 < 4 {
        return None;
    }
    assert(data@.subrange(p2 + 1, data.len() as int) =~= t.skip(1));
    assert(data@.subrange(p2 + 2, data.len() as int) =~= t.skip(2));
    assert(data@.subrange(p2 + 3, data.len() as int) =~= t.skip(3));
    let has_default = match read_bool_at(data, p2) {
        Some(b) => b,
        None => return None,
    };
    let kw_only = match read_bool_at(data, p2 + 1) {
        Some(b) => b,
        None => return None,
    };
    let is_in_init = match read_bool_at(data, p2 + 2) {
        Some(b) => b,
        None => return None,
    };
    let is_init_var = match read_bool_at(data, p2 + 3) {
        Some(b) => b,
        None => return None,
    };
    Some((Field { name, alias, has_default, kw_only, is_in_init, is_init_var }, p2 + 4))
}

/// Put the fields `acc`, which took `off` bytes, in front of a decoding
/// result.
pub open spec fn prepend_fields(acc: Seq<FieldSpec>, off: int, r: Option<(Seq<FieldSpec>, int)>) -> Option<
    (Seq<FieldSpec>, int),
> {
    match r {
        Some((rest, m)) => Some((acc + rest, off + m)),
        None => None,
    }
}

/// One step of decoding a field list: a tag, a descriptor, then the rest.
proof fn lemma_field_list_step(
    s: Seq<u8>,
    k: nat,
    acc: Seq<FieldSpec>,
    off: int,
    fv: FieldSpec,
    n: int,
)
    requires
        k > 0,
        s.len() > 0,
        s[0] == DC_FIELD,
        spec_read_field(s.skip(1)) == Some((fv, n)),
    ensures
        prepend_fields(acc, off, spec_read_field_list(s, k)) == prepend_fields(
            acc.push(fv),
            off + 1 + n,
            spec_read_field_list(s.skip(1 + n), (k - 1) as nat),
        ),
{
    match spec_read_field_list(s.skip(1 + n), (k - 1) as nat) {
        Some((rest, m)) => {
            assert(acc + (seq![fv] + rest) =~= acc.push(fv) + rest);
        },
        None => {},
    }
}

/// Decode the serialized field list at the start of `data`: `None` when the
/// count is the long-integer form, is outside `0..=MAX_FIELD_COUNT`, or any
/// descriptor is malformed or carries the wrong tag.
pub fn deserialize_fields(data: &[u8]) -> (r: Option<Vec<Field>>)
    ensures
        match r {
            Some(fields) => spec_deserialize_fields(data@) == Some(fields_view(fields@)),
            None => spec_deserialize_fields(data@) is None,
        },
{
    if data.len() == 0 {
        return None;
    }
    let first: u8 = data[0];
    if first == LONG_INT_TRAILER {
        return None;
    }
    assert(data@.subrange(0, data.len() as int) =~= data@);
    let (count, start) = match read_int_at(data, 0) {
        Some(r) => r,
        None => return None,
    };
    if count < 0 || count > MAX_FIELD_COUNT {
        return None;
    }
    let ghost total = count as nat;
    let ghost body = data@.skip(start as int);
    let mut fields: Vec<Field> = Vec::new();
    let mut pos: usize = start;
    let mut i: i64 = 0;
    assert(fields_view(fields@) + seq![] =~= seq![]);
    assert(prepend_fields(seq![], 0, spec_read_field_list(body, total)) == spec_read_field_list(body, total)) by {
        match spec_read_field_list(body, total) {
            Some((rest, m)) => { assert(seq![] + rest =~= rest); },
            None => {},
        }
    }
    while i < count
        invariant
            0 <= i <= count <= MAX_FIELD_COUNT,
            total == count,
            start <= pos <= data.len(),
            body == data@.skip(start as int),
            data@.len() > 0,
            data@[0] != LONG_INT_TRAILER,
            spec_read_int(data@) == Some((count as int, start as int)),
            fields@.len() == i,
            spec_read_field_list(body, total) == prepend_fields(
                fields_view(fields@),
                pos - start,
                spec_read_field_list(data@.skip(pos as int), (total - i) as nat),
            ),
        decreases count - i,
    {
        let ghost s = data@.skip(pos as int);
        if pos >= data.len() || data[pos] != DC_FIELD {
            assert(spec_read_field_list(s, (total - i) as nat) is None);
            return None;
        }
        assert(data@.subrange(pos + 1, data.len() as int) =~= s.skip(1));
        let (f, next) = match read_field_at(data, pos + 1) {
            Some(r) => r,
            None => {
                assert(spec_read_field_list(s, (total - i) as nat) is None);
                return None;
            },
        };
        assert(data@.skip(next as int) =~= s.skip(next - pos));
        proof {
            lemma_field_list_step(
                s,
                (total - i) as nat,
                fields_view(fields@),
                pos - start,
                f@,
                next - pos - 1,
            );
        }
        let ghost old_view = fields_view(fields@);
        let ghost fv = f@;
        fields.push(f);
        assert(fields_view(fields@) =~= old_view.push(fv));
        pos = next;
        i = i + 1;
    }
    assert(fields_view(fields@) + seq![] =~= fields_view(fields@));
    Some(fields)
}

// ---------------------------------------------------------------------------
// Computing the argument lists
// ---------------------------------------------------------------------------

/// The argument name of a field: its alias when it has one, else its name.
pub open spec fn arg_name(f: FieldSpec) -> Seq<char> {
    if f.alias.len() == 0 {
        f.name
    } else {
        f.alias
    }
}

/// The kind of a field's `__init__` argument.
pub open spec fn init_kind(f: FieldSpec) -> i64 {
    if f.kw_only {
        if f.has_default {
            ARG_NAMED_OPT
        } else {
            ARG_NAMED
        }
    } else if f.has_default {
        ARG_OPT
    } else {
        ARG_POS
    }
}

/// The `__init__` arguments: one per field, in field order.
pub open spec fn spec_init_args(fields: Seq<FieldSpec>) -> Seq<ArgSpec> {
    fields.map_values(|f: FieldSpec| (arg_name(f), init_kind(f)))
}

/// The `__post_init__` arguments: one positional argument per `InitVar`
/// field, in field order.
pub open spec fn spec_post_init_args(fields: Seq<FieldSpec>) -> Seq<ArgSpec>
    decreases fields.len(),
{
    if fields.len() == 0 {
        seq![]
    } else {
        let prev = spec_post_init_args(fields.drop_last());
        if fields.last().is_init_var {
            prev.push((arg_name(fields.last()), ARG_POS))
        } else {
            prev
        }
    }
}

/// The argument name of a field.
fn field_arg_name(f: &Field) -> (r: String)
    ensures
        r@ == arg_name(f@),
{
    if f.alias.as_str().is_empty() {
        f.name.clone()
    } else {
        f.alias.clone()
    }
}

/// Compute the `__init__` argument list: each field once, in field order,
/// named `alias or name`, with its kind from `kw_only` and `has_default`.
pub fn compute_init_signature(fields: &[Field]) -> (r: Vec<(String, i64)>)
    ensures
        args_view(r@) == spec_init_args(fields_view(fields@)),
{
    let mut args: Vec<(String, i64)> = Vec::new();
    let mut i: usize = 0;
    while i < fields.len()
        invariant
            i <= fields@.len(),
            args_view(args@) =~= spec_init_args(fields_view(fields@)).take(i as int),
        decreases fields.len() - i,
    {
        let f = &fields[i];
        let kind: i64 = if f.kw_only {
            if f.has_default {
                ARG_NAMED_OPT
            } else {
                ARG_NAMED
            }
        } else if f.has_default {
            ARG_OPT
        } else {
            ARG_POS
        };
        let name = field_arg_name(f);
        assert(fields_view(fields@)[i as int] == f@);
        assert(kind == init_kind(f@));
        let ghost prev = args_view(args@);
        args.push((name, kind));
        assert(args_view(args@) =~= prev.push((arg_name(f@), init_kind(f@))));
        i = i + 1;
        assert(args_view(args@) =~= spec_init_args(fields_view(fields@)).take(i as int));
    }
    assert(spec_init_args(fields_view(fields@)).take(i as int) =~= spec_init_args(
        fields_view(fields@),
    ));
    args
}

/// Compute the `__post_init__` argument list: the `InitVar` fields only, in
/// field order, each named `alias or name` and positional.
pub fn compute_post_init_signature(fields: &[Field]) -> (r: Vec<(String, i64)>)
    ensures
        args_view(r@) == spec_post_init_args(fields_view(fields@)),
{
    let mut args: Vec<(String, i64)> = Vec::new();
    let mut i: usize = 0;
    while i < fields.len()
        invariant
            i <= fields@.len(),
            args_view(args@) =~= spec_post_init_args(fields_view(fields@).take(i as int)),
        decreases fields.len() - i,
    {
        let ghost before = fields_view(fields@).take(i as int);
        let f = &fields[i];
        if f.is_init_var {
            let name = field_arg_name(f);
            args.push((name, ARG_POS));
        }
        i = i + 1;
        assert(fields_view(fields@).take(i as int).drop_last() =~= before);
        assert(args_view(args@) =~= spec_post_init_args(fields_view(fields@).take(i as int)));
    }
    assert(fields_view(fields@).take(i as int) =~= fields_view(fields@));
    args
}

/// Every `__post_init__` argument is positional and comes from an
/// `InitVar` field; a field list without `InitVar` fields gives none.
pub proof fn lemma_post_init_args_positional(fields: Seq<FieldSpec>)
    ensures
        forall|i: int|
            0 <= i < spec_post_init_args(fields).len() ==> (#[trigger] spec_post_init_args(
                fields,
            )[i]).1 == ARG_POS,
        spec_post_init_args(fields).len() <= fields.len(),
        (forall|j: int| 0 <= j < fields.len() ==> !(#[trigger] fields[j]).is_init_var)
            ==> spec_post_init_args(fields).len() == 0,
    decreases fields.len(),
{
    if fields.len() > 0 {
        lemma_post_init_args_positional(fields.drop_last());
        assert forall|j: int| 0 <= j < fields.drop_last().len() implies fields.drop_last()[j]
            == fields[j] by {}
    }
}

/// The `__init__` arguments are the fields, one each and in order, named
/// by the alias when there is one and else by the name. A field's kind is
/// decided by its `kw_only` and `has_default` flags alone: positional
/// fields are `ARG_OPT` with a default and `ARG_POS` without, keyword-only
/// fields `ARG_NAMED_OPT` with a default and `ARG_NAMED` without, whether
/// or not the field is an `InitVar` or part of `__init__`.
pub proof fn lemma_init_args_by_flags(fields: Seq<FieldSpec>)
    ensures
        spec_init_args(fields).len() == fields.len(),
        forall|i: int|
            0 <= i < fields.len() ==> (#[trigger] spec_init_args(fields)[i]).0 == (if fields[i].alias.len()
                == 0 {
                fields[i].name
            } else {
                fields[i].alias
            }),
        forall|i: int|
            0 <= i < fields.len() && !fields[i].kw_only && fields[i].has_default
                ==> (#[trigger] spec_init_args(fields)[i]).1 == 1,
        forall|i: int|
            0 <= i < fields.len() && !fields[i].kw_only && !fields[i].has_default
                ==> (#[trigger] spec_init_args(fields)[i]).1 == 0,
        forall|i: int|
            0 <= i < fields.len() && fields[i].kw_only && fields[i].has_default
                ==> (#[trigger] spec_init_args(fields)[i]).1 == 5,
        forall|i: int|
            0 <= i < fields.len() && fields[i].kw_only && !fields[i].has_default
                ==> (#[trigger] spec_init_args(fields)[i]).1 == 3,
        forall|i: int, j: int|
            0 <= i < fields.len() && 0 <= j < fields.len() && fields[i].kw_only == fields[j].kw_only
                && fields[i].has_default == fields[j].has_default ==> (#[trigger] spec_init_args(
                fields,
            )[i]).1 == (#[trigger] spec_init_args(fields)[j]).1,
{
}

/// The name a field's argument takes: its alias, or its name without one.
pub open spec fn alias_or_name(f: FieldSpec) -> Seq<char> {
    if f.alias.len() == 0 {
        f.name
    } else {
        f.alias
    }
}

/// The `__post_init__` arguments are exactly the `InitVar` fields, in field
/// order, each named by its alias or name and positional, whatever its
/// default or `kw_only` flag; no other field contributes one.
pub proof fn lemma_post_init_args_are_init_vars(fields: Seq<FieldSpec>)
    ensures
        spec_post_init_args(fields) == fields.filter(|f: FieldSpec| f.is_init_var).map_values(
            |f: FieldSpec| (alias_or_name(f), 0i64),
        ),
    decreases fields.len(),
{
    if fields.len() > 0 {
        lemma_post_init_args_are_init_vars(fields.drop_last());
        let prev = fields.drop_last().filter(|f: FieldSpec| f.is_init_var);
        reveal_with_fuel(Seq::filter, 2);
        assert(fields.filter(|f: FieldSpec| f.is_init_var) == (if fields.last().is_init_var {
            prev.push(fields.last())
        } else {
            prev
        }));
        if fields.last().is_init_var {
            assert(prev.push(fields.last()).map_values(|f: FieldSpec| (alias_or_name(f), 0i64))
                =~= prev.map_values(|f: FieldSpec| (alias_or_name(f), 0i64)).push(
                (alias_or_name(fields.last()), 0i64),
            ));
        }
    }
}

// ---------------------------------------------------------------------------
// Encoding the signature
// ---------------------------------------------------------------------------

/// The encoding of one argument: its name as a string, then its kind.
pub open spec fn spec_arg_bytes(a: ArgSpec) -> Seq<u8> {
    spec_str_bytes(a.0) + spec_int_bytes(a.1 as int)
}

/// The encodings of the arguments, one after the other.
pub open spec fn spec_args_bytes(args: Seq<ArgSpec>) -> Seq<u8>
    decreases args.len(),
{
    if args.len() == 0 {
        seq![]
    } else {
        spec_args_bytes(args.drop_last()) + spec_arg_bytes(args.last())
    }
}

/// The signature body: its tag, the argument count, the arguments, then a
/// cleared returns flag, the `None` return type and the end tag.
pub open spec fn spec_signature_body(args: Seq<ArgSpec>) -> Seq<u8> {
    seq![DC_INIT_SIG] + spec_int_bytes(args.len() as int) + spec_args_bytes(args) + seq![
        0u8,
        NONE_TYPE,
        END_TAG,
    ]
}

/// The signature envelope: its tag, the body length, then the body.
pub open spec fn spec_encode_signature(args: Seq<ArgSpec>) -> Seq<u8> {
    seq![DC_INIT_SIG] + spec_int_bytes(spec_signature_body(args).len() as int)
        + spec_signature_body(args)
}

/// Whether every integer the signature encoding writes is a short integer:
/// the argument count, each name's UTF-8 length, each kind, and the body
/// length.
pub open spec fn signature_encodable(args: Seq<ArgSpec>) -> bool {
    &&& args.len() <= MAX_FOUR_BYTES_INT
    &&& forall|i: int|
        0 <= i < args.len() ==> {
            &&& encode_utf8(#[trigger] args[i].0).len() <= MAX_FOUR_BYTES_INT
            &&& is_short_int(args[i].1 as int)
        }
    &&& spec_signature_body(args).len() <= MAX_FOUR_BYTES_INT
}

/// Encode a computed argument list in the signature wire format.
pub fn encode_signature(args: &[(String, i64)]) -> (r: Vec<u8>)
    requires
        signature_encodable(args_view(args@)),
    ensures
        r@ == spec_encode_signature(args_view(args@)),
{
    let ghost view = args_view(args@);
    let mut body: Vec<u8> = Vec::new();
    body.push(DC_INIT_SIG);
    write_int_bare(&mut body, args.len() as i64);
    let ghost head = body@;
    let mut i: usize = 0;
    while i < args.len()
        invariant
            i <= args@.len(),
            view == args_view(args@),
            signature_encodable(view),
            head == seq![DC_INIT_SIG] + spec_int_bytes(view.len() as int),
            body@ == head + spec_args_bytes(view.take(i as int)),
        decreases args.len() - i,
    {
        let ghost before = body@;
        let name_bytes: &[u8] = args[i].0.as_str().as_bytes();
        let kind: i64 = args[i].1;
        assert(view[i as int] == (args@[i as int].0@, kind));
        assert(name_bytes@ == encode_utf8(view[i as int].0));
        assert(encode_utf8(view[i as int].0).len() <= MAX_FOUR_BYTES_INT);
        assert(is_short_int(view[i as int].1 as int));
        write_int_bare(&mut body, name_bytes.len() as i64);
        body.extend_from_slice(name_bytes);
        write_int_bare(&mut body, kind);
        assert(body@ =~= before + spec_arg_bytes(view[i as int]));
        assert(view.take(i + 1).drop_last() =~= view.take(i as int));
        i = i + 1;
    }
    assert(view.take(i as int) =~= view);
    body.push(0u8);
    body.push(NONE_TYPE);
    body.push(END_TAG);
    assert(body@ =~= spec_signature_body(view));
    let mut result: Vec<u8> = Vec::new();
    result.push(DC_INIT_SIG);
    write_int_bare(&mut result, body.len() as i64);
    let mut j: usize = 0;
    let ghost prefix = result@;
    while j < body.len()
        invariant
            j <= body@.len(),
            result@ == prefix + body@.take(j as int),
        decreases body.len() - j,
    {
        result.push(body[j]);
        j = j + 1;
        assert(result@ =~= prefix + body@.take(j as int));
    }
    assert(body@.take(j as int) =~= body@);
    result
}

/// A longer prefix of the arguments never has a shorter encoding.
proof fn lemma_args_bytes_prefix_len(args: Seq<ArgSpec>, k: int)
    requires
        0 <= k <= args.len(),
    ensures
        spec_args_bytes(args.take(k)).len() <= spec_args_bytes(args).len(),
    decreases args.len(),
{
    if k < args.len() {
        assert(args.drop_last().take(k) =~= args.take(k));
        lemma_args_bytes_prefix_len(args.drop_last(), k);
    } else {
        assert(args.take(k) =~= args);
    }
}

/// Whether an argument list can be encoded (see `signature_encodable`).
pub fn signature_fits(args: &[(String, i64)]) -> (r: bool)
    ensures
        r == signature_encodable(args_view(args@)),
{
    let ghost view = args_view(args@);
    let n = args.len();
    if n > MAX_FOUR_BYTES_INT as usize {
        return false;
    }
    let mut total: u64 = 1 + int_len(n as i64) + 3;
    let mut i: usize = 0;
    assert(view.take(0) =~= seq![]);
    while i < n
        invariant
            n == args@.len(),
            n <= MAX_FOUR_BYTES_INT,
            i <= n,
            view == args_view(args@),
            total <= MAX_FOUR_BYTES_INT,
            total == 1 + spec_int_bytes(n as int).len() + spec_args_bytes(view.take(i as int)).len()
                + 3,
            forall|j: int|
                0 <= j < i ==> {
                    &&& encode_utf8(#[trigger] view[j].0).len() <= MAX_FOUR_BYTES_INT
                    &&& is_short_int(view[j].1 as int)
                },
        decreases n - i,
    {
        let name_len: usize = args[i].0.as_str().as_bytes().len();
        let kind: i64 = args[i].1;
        assert(view[i as int] == (args@[i as int].0@, kind));
        assert(name_len == encode_utf8(view[i as int].0).len());
        if name_len > MAX_FOUR_BYTES_INT as usize || kind < MIN_FOUR_BYTES_INT || kind
            > MAX_FOUR_BYTES_INT {
            return false;
        }
        total = total + int_len(name_len as i64) + (name_len as u64) + int_len(kind);
        assert(encode_utf8(view[i as int].0).len() <= MAX_FOUR_BYTES_INT);
        assert(is_short_int(view[i as int].1 as int));
        assert(view.take(i + 1).drop_last() =~= view.take(i as int));
        i = i + 1;
        assert(spec_signature_body(view).len() == 1 + spec_int_bytes(n as int).len()
            + spec_args_bytes(view).len() + 3);
        if total > MAX_FOUR_BYTES_INT as u64 {
            proof {
                lemma_args_bytes_prefix_len(view, i as int);
            }
            return false;
        }
    }
    assert(view.take(i as int) =~= view);
    assert(spec_signature_body(view).len() == 1 + spec_int_bytes(n as int).len()
        + spec_args_bytes(view).len() + 3);
    true
}

/// The dataclass `__init__` signature seam: decode the fields, compute the
/// `__init__` arguments and encode them. `None` when the fields do not
/// decode. The class name and the decorator flags do not affect the result.
pub fn rust_dataclass_transform(
    fields_bytes: &[u8],
    _class_fullname: &str,
    _decorator_init: bool,
    _decorator_eq: bool,
    _decorator_order: bool,
    _decorator_frozen: bool,
) -> (r: Option<Vec<u8>>)
    requires
        spec_deserialize_fields(fields_bytes@) matches Some(fs) ==> signature_encodable(
            spec_init_args(fs),
        ),
    ensures
        match spec_deserialize_fields(fields_bytes@) {
            Some(fs) => r matches Some(out) && out@ == spec_encode_signature(spec_init_args(fs)),
            None => r is None,
        },
{
    let fields = match deserialize_fields(fields_bytes) {
        Some(f) => f,
        None => return None,
    };
    let args = compute_init_signature(fields.as_slice());
    Some(encode_signature(args.as_slice()))
}

/// The dataclass `__post_init__` signature seam: decode the fields, keep
/// the `InitVar` ones as positional arguments and encode them. `None` when
/// the fields do not decode. The class name does not affect the result.
pub fn rust_dataclass_post_init_transform(fields_bytes: &[u8], _class_fullname: &str) -> (r:
    Option<Vec<u8>>)
    requires
        spec_deserialize_fields(fields_bytes@) matches Some(fs) ==> signature_encodable(
            spec_post_init_args(fs),
        ),
    ensures
        match spec_deserialize_fields(fields_bytes@) {
            Some(fs) => r matches Some(out) && out@ == spec_encode_signature(
                spec_post_init_args(fs),
            ),
            None => r is None,
        },
{
    let fields = match deserialize_fields(fields_bytes) {
        Some(f) => f,
        None => return None,
    };
    let args = compute_post_init_signature(fields.as_slice());
    Some(encode_signature(args.as_slice()))
}

// ---------------------------------------------------------------------------
// The field list as Python writes it, and the round trip
// ---------------------------------------------------------------------------

/// The encoding of one field descriptor, tag included.
pub open spec fn spec_field_bytes(f: FieldSpec) -> Seq<u8> {
    seq![DC_FIELD] + spec_str_bytes(f.name) + spec_str_bytes(f.alias) + spec_bool_bytes(
        f.has_default,
    ) + spec_bool_bytes(f.kw_only) + spec_bool_bytes(f.is_in_init) + spec_bool_bytes(
        f.is_init_var,
    )
}

/// The encodings of the field descriptors, one after the other.
pub open spec fn spec_field_list_bytes(fields: Seq<FieldSpec>) -> Seq<u8>
    decreases fields.len(),
{
    if fields.len() == 0 {
        seq![]
    } else {
        spec_field_bytes(fields[0]) + spec_field_list_bytes(fields.drop_first())
    }
}

/// The field list as Python serializes it: the count, then the tagged
/// descriptors.
pub open spec fn spec_serialize_fields(fields: Seq<FieldSpec>) -> Seq<u8> {
    spec_int_bytes(fields.len() as int) + spec_field_list_bytes(fields)
}

/// Whether the texts of a field have short-integer lengths.
pub open spec fn field_serializable(f: FieldSpec) -> bool {
    &&& is_short_int(encode_utf8(f.name).len() as int)
    &&& is_short_int(encode_utf8(f.alias).len() as int)
}

/// The byte of a flag.
pub open spec fn flag_byte(b: bool) -> u8 {
    if b {
        1
    } else {
        0
    }
}

proof fn lemma_field_bytes_shape(f: FieldSpec)
    ensures
        spec_field_bytes(f) =~= seq![DC_FIELD] + spec_str_bytes(f.name) + spec_str_bytes(f.alias)
            + seq![
            flag_byte(f.has_default),
            flag_byte(f.kw_only),
            flag_byte(f.is_in_init),
            flag_byte(f.is_init_var),
        ],
{
}

proof fn lemma_field_roundtrip(f: FieldSpec, rest: Seq<u8>)
    requires
        field_serializable(f),
    ensures
        spec_read_field(spec_field_bytes(f).skip(1) + rest) == Some(
            (f, spec_field_bytes(f).len() - 1),
        ),
{
    reveal(spec_read_field);
    let a = spec_str_bytes(f.name);
    let b = spec_str_bytes(f.alias);
    let fl = seq![
        flag_byte(f.has_default),
        flag_byte(f.kw_only),
        flag_byte(f.is_in_init),
        flag_byte(f.is_init_var),
    ];
    lemma_field_bytes_shape(f);
    let s = spec_field_bytes(f).skip(1) + rest;
    assert(s =~= a + (b + (fl + rest)));
    lemma_str_roundtrip(f.name, b + (fl + rest));
    let s1 = s.skip(a.len() as int);
    assert(s1 =~= b + (fl + rest));
    lemma_str_roundtrip(f.alias, fl + rest);
    let t = s.skip((a.len() + b.len()) as int);
    assert(t =~= fl + rest);
    assert(spec_read_bool(t) == Some(f.has_default));
    assert(spec_read_bool(t.skip(1)) == Some(f.kw_only));
    assert(spec_read_bool(t.skip(2)) == Some(f.is_in_init));
    assert(spec_read_bool(t.skip(3)) == Some(f.is_init_var));
}

proof fn lemma_field_list_roundtrip(fields: Seq<FieldSpec>, rest: Seq<u8>)
    requires
        forall|i: int| 0 <= i < fields.len() ==> field_serializable(#[trigger] fields[i]),
    ensures
        spec_read_field_list(spec_field_list_bytes(fields) + rest, fields.len()) == Some(
            (fields, spec_field_list_bytes(fields).len() as int),
        ),
    decreases fields.len(),
{
    if fields.len() > 0 {
        let f = fields[0];
        let tail = fields.drop_first();
        let fb = spec_field_bytes(f);
        let s = spec_field_list_bytes(fields) + rest;
        assert(s =~= fb + (spec_field_list_bytes(tail) + rest));
        assert(s[0] == DC_FIELD);
        assert(field_serializable(fields[0]));
        lemma_field_roundtrip(f, spec_field_list_bytes(tail) + rest);
        assert(s.skip(1) =~= fb.skip(1) + (spec_field_list_bytes(tail) + rest));
        assert(s.skip(1 + (fb.len() - 1)) =~= spec_field_list_bytes(tail) + rest);
        assert forall|i: int| 0 <= i < tail.len() implies field_serializable(#[trigger] tail[i]) by {
            assert(tail[i] == fields[i + 1]);
        }
        lemma_field_list_roundtrip(tail, rest);
        assert(seq![f] + tail =~= fields);
    } else {
        assert(fields =~= seq![]);
    }
}

/// Decoding what Python serializes gives the same fields back, in order,
/// whatever bytes follow: for every list of at most `MAX_FIELD_COUNT`
/// fields whose texts have short-integer lengths.
pub proof fn lemma_deserialize_serialize_fields(fields: Seq<FieldSpec>, rest: Seq<u8>)
    requires
        fields.len() <= MAX_FIELD_COUNT,
        forall|i: int| 0 <= i < fields.len() ==> field_serializable(#[trigger] fields[i]),
    ensures
        spec_deserialize_fields(spec_serialize_fields(fields) + rest) == Some(fields),
{
    let head = spec_int_bytes(fields.len() as int);
    let body = spec_field_list_bytes(fields) + rest;
    let s = spec_serialize_fields(fields) + rest;
    assert(s =~= head + body);
    lemma_int_roundtrip(fields.len() as int, body);
    assert(s[0] == head[0]);
    assert(s.skip(head.len() as int) =~= body);
    lemma_field_list_roundtrip(fields, rest);
}

// ---------------------------------------------------------------------------
// Reading a signature back
// ---------------------------------------------------------------------------

/// Decode `count` arguments (each a string, then a short integer) at the
/// start of `s`.
pub open spec fn spec_read_args(s: Seq<u8>, count: nat) -> Option<(Seq<ArgSpec>, int)>
    decreases count,
{
    if count == 0 {
        Some((seq![], 0))
    } else {
        match spec_read_str(s) {
            Some((name, n1)) => match spec_read_int(s.skip(n1)) {
                Some((kind, n2)) => match spec_read_args(s.skip(n1 + n2), (count - 1) as nat) {
                    Some((rest, m)) => Some((seq![(name, kind as i64)] + rest, n1 + n2 + m)),
                    None => None,
                },
                None => None,
            },
            None => None,
        }
    }
}

/// Read a whole signature envelope, as the Python side does: the tag, the
/// body length, then a body made of the tag, the argument count, the
/// arguments, the returns flag `0`, `NONE_TYPE` and `END_TAG`, which must
/// end exactly where the body length says and at the end of `s`.
pub open spec fn spec_read_signature(s: Seq<u8>) -> Option<Seq<ArgSpec>> {
    if s.len() == 0 || s[0] != DC_INIT_SIG {
        None
    } else {
        match spec_read_int(s.skip(1)) {
            Some((body_len, n1)) => {
                let body = s.skip(1 + n1);
                if body.len() != body_len || body.len() == 0 || body[0] != DC_INIT_SIG {
                    None
                } else {
                    match spec_read_int(body.skip(1)) {
                        Some((count, n2)) => if count < 0 {
                            None
                        } else {
                            match spec_read_args(body.skip(1 + n2), count as nat) {
                                Some((args, m)) => {
                                    let tail = body.skip(1 + n2 + m);
                                    if tail =~= seq![0u8, NONE_TYPE, END_TAG] {
                                        Some(args)
                                    } else {
                                        None
                                    }
                                },
                                None => None,
                            }
                        },
                        None => None,
                    }
                }
            },
            None => None,
        }
    }
}

/// The argument encodings can also be split off from the front.
proof fn lemma_args_bytes_front(args: Seq<ArgSpec>)
    requires
        args.len() > 0,
    ensures
        spec_args_bytes(args) =~= spec_arg_bytes(args[0]) + spec_args_bytes(args.drop_first()),
    decreases args.len(),
{
    if args.len() > 1 {
        lemma_args_bytes_front(args.drop_last());
        assert(args.drop_last().drop_first() =~= args.drop_first().drop_last());
        assert(args.drop_last()[0] == args[0]);
    } else {
        assert(args.drop_first() =~= seq![]);
        assert(args.drop_last() =~= seq![]);
    }
}

proof fn lemma_read_args_roundtrip(args: Seq<ArgSpec>, rest: Seq<u8>)
    requires
        forall|i: int|
            0 <= i < args.len() ==> {
                &&& encode_utf8(#[trigger] args[i].0).len() <= MAX_FOUR_BYTES_INT
                &&& is_short_int(args[i].1 as int)
            },
    ensures
        spec_read_args(spec_args_bytes(args) + rest, args.len()) == Some(
            (args, spec_args_bytes(args).len() as int),
        ),
    decreases args.len(),
{
    if args.len() > 0 {
        let a = args[0];
        let tail = args.drop_first();
        lemma_args_bytes_front(args);
        let name = spec_str_bytes(a.0);
        let kind = spec_int_bytes(a.1 as int);
        let s = spec_args_bytes(args) + rest;
        assert(s =~= name + (kind + (spec_args_bytes(tail) + rest)));
        assert(encode_utf8(args[0].0).len() <= MAX_FOUR_BYTES_INT);
        lemma_str_roundtrip(a.0, kind + (spec_args_bytes(tail) + rest));
        assert(s.skip(name.len() as int) =~= kind + (spec_args_bytes(tail) + rest));
        lemma_int_roundtrip(a.1 as int, spec_args_bytes(tail) + rest);
        assert(s.skip((name.len() + kind.len()) as int) =~= spec_args_bytes(tail) + rest);
        assert forall|i: int| 0 <= i < tail.len() implies {
            &&& encode_utf8(#[trigger] tail[i].0).len() <= MAX_FOUR_BYTES_INT
            &&& is_short_int(tail[i].1 as int)
        } by {
            assert(tail[i] == args[i + 1]);
        }
        lemma_read_args_roundtrip(tail, rest);
        assert(seq![(a.0, a.1)] + tail =~= args);
    } else {
        assert(args =~= seq![]);
    }
}

/// Reading an encoded signature back gives exactly the encoded arguments,
/// names and kinds in order, and consumes the whole envelope.
pub proof fn lemma_read_encoded_signature(args: Seq<ArgSpec>)
    requires
        signature_encodable(args),
    ensures
        spec_read_signature(spec_encode_signature(args)) == Some(args),
{
    let body = spec_signature_body(args);
    let s = spec_encode_signature(args);
    let head = spec_int_bytes(body.len() as int);
    assert(s.skip(1) =~= head + body);
    lemma_int_roundtrip(body.len() as int, body);
    assert(s.skip((1 + head.len()) as int) =~= body);
    let count = spec_int_bytes(args.len() as int);
    let tail = seq![0u8, NONE_TYPE, END_TAG];
    assert(body.skip(1) =~= count + (spec_args_bytes(args) + tail));
    lemma_int_roundtrip(args.len() as int, spec_args_bytes(args) + tail);
    assert(body.skip((1 + count.len()) as int) =~= spec_args_bytes(args) + tail);
    lemma_read_args_roundtrip(args, tail);
    assert(body.skip((1 + count.len() + spec_args_bytes(args).len()) as int) =~= tail);
}

} // verus!
