//! The map compiler's reading of a glTF scene: the custom properties
//! ("extras") of a node, which say whether it is a decoration or an entity
//! and by what name; the integers and floats of an accessor, read from the
//! scene's binary buffers; and the PNG image of a primitive's texture.
//!
//! The application imports the glTF file and hands the library each node's
//! extras and each accessor's buffer view as plain values.
use vstd::prelude::*;

use crate::big_buffer::BigBuffer;
use crate::interning::intern;
use crate::text_util::str_eq;

verus! {

/// An error of the map compiler, with its message.
pub struct NmccError<'a>(pub &'a str);

impl<'a> NmccError<'a> {
    /// The message of this error.
    pub fn message(&self) -> (res: &'a str)
        ensures
            res@ == self.0@,
    {
        self.0
    }
}

/// A JSON text, reduced to what the compiler reads from it: whether it is
/// JSON at all, whether it is an object, and for an object its members in
/// key order, each with its value where that value is a string.
pub enum JsonDoc {
    Invalid,
    NotObject,
    Object(Vec<(String, Option<String>)>),
}

/// The members of a JSON object: each key, with the value where it is a
/// string.
pub open spec fn members_view(m: Seq<(String, Option<String>)>) -> Seq<(Seq<char>, Option<Seq<char>>)> {
    m.map_values(
        |e: (String, Option<String>)|
            (
                e.0@,
                match e.1 {
                    Some(s) => Some(s@),
                    None => None,
                },
            ),
    )
}

impl View for JsonDoc {
    type V = Option<Option<Seq<(Seq<char>, Option<Seq<char>>)>>>;

    open spec fn view(&self) -> Self::V {
        match self {
            JsonDoc::Invalid => None,
            JsonDoc::NotObject => Some(None),
            JsonDoc::Object(m) => Some(Some(members_view(m@))),
        }
    }
}

/// What `serde_json` reads from the text `s` as a `serde_json::Value`,
/// reduced as `JsonDoc` is: `None` where it reports an error, `Some(None)`
/// for a value other than an object, and for an object its members in the
/// order of its map.
pub uninterp spec fn json_doc_of(s: Seq<char>) -> Option<Option<Seq<(Seq<char>, Option<Seq<char>>)>>>;

/// Parses `s` with `serde_json::from_str` into a `serde_json::Value` and
/// keeps of it what `JsonDoc` holds. The contract only names the result: it
/// is a function of the text.
#[verifier::external_body]
fn parse_json(s: &str) -> (res: JsonDoc)
    ensures
        res@ == json_doc_of(s@),
{
    match serde_json::from_str::<serde_json::Value>(s) {
        Err(_) => JsonDoc::Invalid,
        Ok(serde_json::Value::Object(map)) => JsonDoc::Object(
            map.into_iter().map(|(k, v)| match v {
                serde_json::Value::String(t) => (k, Some(t)),
                _ => (k, None),
            }).collect(),
        ),
        Ok(_) => JsonDoc::NotObject,
    }
}

/// The members of `m` whose value is a string, in order.
pub open spec fn string_members(m: Seq<(Seq<char>, Option<Seq<char>>)>) -> Seq<(Seq<char>, Seq<char>)>
    decreases m.len(),
{
    if m.len() == 0 {
        Seq::empty()
    } else {
        let before = string_members(m.drop_last());
        match m.last().1 {
            Some(v) => before.push((m.last().0, v)),
            None => before,
        }
    }
}

/// The string-valued members of a parsed JSON text: none unless it is an
/// object.
pub open spec fn string_pairs(d: Option<Option<Seq<(Seq<char>, Option<Seq<char>>)>>>) -> Seq<
    (Seq<char>, Seq<char>),
> {
    match d {
        Some(Some(m)) => string_members(m),
        _ => Seq::empty(),
    }
}

/// The character sequences of a list of string pairs.
pub open spec fn pairs_view(v: Seq<(String, String)>) -> Seq<(Seq<char>, Seq<char>)> {
    v.map_values(|p: (String, String)| (p.0@, p.1@))
}

/// The string-valued members of a parsed JSON text, in order.
pub fn string_pairs_of(doc: JsonDoc) -> (res: Vec<(String, String)>)
    ensures
        pairs_view(res@) == string_pairs(doc@),
{
    let mut pairs: Vec<(String, String)> = Vec::new();
    match doc {
        JsonDoc::Object(members) => {
            let ghost m = members_view(members@);
            let n = members.len();
            let mut i: usize = 0;
            while i < n
                invariant
                    n == members@.len(),
                    m == members_view(members@),
                    i <= n,
                    pairs_view(pairs@) == string_members(m.take(i as int)),
                decreases n - i,
            {
                assert(m.take((i + 1) as int).drop_last() =~= m.take(i as int));
                let (k, v) = &members[i];
                match v {
                    Some(s) => {
                        let ghost before = pairs@;
                        pairs.push((k.clone(), s.clone()));
                        assert(pairs_view(pairs@) =~= pairs_view(before).push((k@, s@)));
                    },
                    None => {},
                }
                i = i + 1;
            }
            assert(m.take(n as int) =~= m);
        },
        JsonDoc::Invalid => {
            assert(pairs_view(pairs@) =~= Seq::<(Seq<char>, Seq<char>)>::empty());
        },
        JsonDoc::NotObject => {
            assert(pairs_view(pairs@) =~= Seq::<(Seq<char>, Seq<char>)>::empty());
        },
    }
    pairs
}

/// The string-valued members of the JSON object `json_str`, in key order;
/// none where the text is not JSON or not an object.
pub fn json_string_pairs(json_str: &str) -> (res: Vec<(String, String)>)
    ensures
        pairs_view(res@) == string_pairs(json_doc_of(json_str@)),
{
    let doc = parse_json(json_str);
    string_pairs_of(doc)
}

/// The number type of an accessor's components.
#[derive(Debug, Clone, Copy, PartialEq, Eq, Structural)]
pub enum ComponentType {
    I8,
    U8,
    I16,
    U16,
    U32,
    F32,
}

/// A run of bytes in one of the scene's binary buffers.
#[derive(Debug, Clone, Copy, PartialEq, Eq, Structural)]
pub struct BufferView {
    pub buffer: usize,
    pub offset: usize,
    pub length: usize,
}

/// An accessor of the scene: where its data lies, if anywhere, and the type
/// of its components.
#[derive(Debug, Clone, Copy, PartialEq, Eq, Structural)]
pub struct AccessorData {
    pub view: Option<BufferView>,
    pub data_type: ComponentType,
}

/// The buffer view lies inside the buffers.
pub open spec fn view_in_bounds(v: BufferView, buffers: Seq<Vec<u8>>) -> bool {
    v.buffer < buffers.len() && v.offset + v.length <= buffers[v.buffer as int]@.len()
}

/// The bytes of a buffer view.
pub open spec fn view_bytes(v: BufferView, buffers: Seq<Vec<u8>>) -> Seq<u8> {
    buffers[v.buffer as int]@.subrange(v.offset as int, v.offset + v.length)
}

/// The little-endian 16-bit numbers of `b`, two bytes each.
pub open spec fn le_u16s(b: Seq<u8>) -> Seq<u32> {
    Seq::new(b.len() / 2, |i: int| (b[2 * i] + 256 * b[2 * i + 1]) as u32)
}

/// The little-endian 32-bit numbers of `b`, four bytes each.
pub open spec fn le_u32s(b: Seq<u8>) -> Seq<u32> {
    Seq::new(
        b.len() / 4,
        |i: int|
            (b[4 * i] + 256 * b[4 * i + 1] + 65536 * b[4 * i + 2] + 16777216 * b[4 * i + 3]) as u32,
    )
}

/// Reading an index accessor does not panic: where it has a view, the view
/// lies in the buffers, and its components are 16-bit or 32-bit unsigned
/// numbers that fill the view exactly.
pub open spec fn index_accessor_ok(acc: AccessorData, buffers: Seq<Vec<u8>>) -> bool {
    acc.view matches Some(v) ==> view_in_bounds(v, buffers) && (
    (acc.data_type == ComponentType::U16 && v.length % 2 == 0) || (acc.data_type
        == ComponentType::U32 && v.length % 4 == 0))
}

/// The numbers an index accessor holds; `None` where it has no view.
pub open spec fn index_values(acc: AccessorData, buffers: Seq<Vec<u8>>) -> Option<Seq<u32>> {
    match acc.view {
        None => None,
        Some(v) => if acc.data_type == ComponentType::U16 {
            Some(le_u16s(view_bytes(v, buffers)))
        } else {
            Some(le_u32s(view_bytes(v, buffers)))
        },
    }
}

/// Reads the little-endian 32-bit numbers of `len` bytes of `data` from
/// `start`.
fn read_le_u32s(data: &Vec<u8>, start: usize, len: usize) -> (res: Vec<u32>)
    requires
        start + len <= data@.len(),
        len % 4 == 0,
    ensures
        res@ == le_u32s(data@.subrange(start as int, start + len)),
{
    let ghost b = data@.subrange(start as int, start + len);
    let mut out: Vec<u32> = Vec::new();
    let mut i: usize = 0;
    while i < len / 4
        invariant
            start + len <= data@.len(),
            len % 4 == 0,
            b == data@.subrange(start as int, start + len),
            i <= len / 4,
            out@ =~= le_u32s(b).take(i as int),
        decreases len / 4 - i,
    {
        let dl = data.len();
        assert(4 * i + 4 <= len) by (nonlinear_arith)
            requires
                i < len / 4,
                len % 4 == 0,
        ;
        let p = start + 4 * i;
        let v = data[p] as u32 + 256 * (data[p + 1] as u32) + 65536 * (data[p + 2] as u32)
            + 16777216 * (data[p + 3] as u32);
        assert(b[4 * i as int] == data@[p as int]);
        assert(b[4 * i + 1] == data@[p + 1]);
        assert(b[4 * i + 2] == data@[p + 2]);
        assert(b[4 * i + 3] == data@[p + 3]);
        out.push(v);
        i = i + 1;
    }
    out
}

/// Reads the little-endian 16-bit numbers of `len` bytes of `data` from
/// `start`.
fn read_le_u16s(data: &Vec<u8>, start: usize, len: usize) -> (res: Vec<u32>)
    requires
        start + len <= data@.len(),
        len % 2 == 0,
    ensures
        res@ == le_u16s(data@.subrange(start as int, start + len)),
{
    let ghost b = data@.subrange(start as int, start + len);
    let mut out: Vec<u32> = Vec::new();
    let mut i: usize = 0;
    while i < len / 2
        invariant
            start + len <= data@.len(),
            len % 2 == 0,
            b == data@.subrange(start as int, start + len),
            i <= len / 2,
            out@ =~= le_u16s(b).take(i as int),
        decreases len / 2 - i,
    {
        let dl = data.len();
        assert(2 * i + 2 <= len) by (nonlinear_arith)
            requires
                i < len / 2,
                len % 2 == 0,
        ;
        let p = start + 2 * i;
        let v = data[p] as u32 + 256 * (data[p + 1] as u32);
        assert(b[2 * i as int] == data@[p as int]);
        assert(b[2 * i + 1] == data@[p + 1]);
        out.push(v);
        i = i + 1;
    }
    out
}

/// The numbers of an index accessor, read from the scene's buffers.
pub fn u32s_from_acc(acc: &AccessorData, buffers: &Vec<Vec<u8>>) -> (res: Option<Vec<u32>>)
    requires
        index_accessor_ok(*acc, buffers@),
    ensures
        match index_values(*acc, buffers@) {
            Some(v) => res is Some && res->0@ == v,
            None => res is None,
        },
{
    match acc.view {
        None => None,
        Some(view) => {
            let data = &buffers[view.buffer];
            match acc.data_type {
                ComponentType::U16 => Some(read_le_u16s(data, view.offset, view.length)),
                _ => Some(read_le_u32s(data, view.offset, view.length)),
            }
        },
    }
}

/// Reading a float accessor does not panic: where it has a view, the view
/// lies in the buffers, and its components are 32-bit floats that fill the
/// view exactly.
pub open spec fn float_accessor_ok(acc: AccessorData, buffers: Seq<Vec<u8>>) -> bool {
    acc.view matches Some(v) ==> view_in_bounds(v, buffers) && acc.data_type == ComponentType::F32
        && v.length % 4 == 0
}

/// The bit patterns of the floats a float accessor holds; `None` where it
/// has no view.
pub open spec fn float_values(acc: AccessorData, buffers: Seq<Vec<u8>>) -> Option<Seq<u32>> {
    match acc.view {
        None => None,
        Some(v) => Some(le_u32s(view_bytes(v, buffers))),
    }
}

/// The floats of a float accessor, as bit patterns, read from the scene's
/// buffers.
pub fn f32s_from_acc(acc: &AccessorData, buffers: &Vec<Vec<u8>>) -> (res: Option<Vec<u32>>)
    requires
        float_accessor_ok(*acc, buffers@),
    ensures
        match float_values(*acc, buffers@) {
            Some(v) => res is Some && res->0@ == v,
            None => res is None,
        },
{
    match acc.view {
        None => None,
        Some(view) => Some(read_le_u32s(&buffers[view.buffer], view.offset, view.length)),
    }
}

/// Where a primitive's base color texture comes from.
pub enum ImageSource {
    View { view: BufferView, mime_type: String },
    Uri,
}

/// Reading a texture does not panic: an embedded image lies in the buffers.
pub open spec fn image_source_ok(src: Option<ImageSource>, buffers: Seq<Vec<u8>>) -> bool {
    src matches Some(ImageSource::View { view, .. }) ==> view_in_bounds(view, buffers)
}

/// The PNG bytes of a primitive's texture: the bytes of an embedded image
/// whose type is "image/png"; none for another type, for an image outside
/// the file, or without a texture.
pub open spec fn image_bytes(src: Option<ImageSource>, buffers: Seq<Vec<u8>>) -> Option<Seq<u8>> {
    match src {
        Some(ImageSource::View { view, mime_type }) => if mime_type@ == "image/png"@ {
            Some(view_bytes(view, buffers))
        } else {
            None
        },
        _ => None,
    }
}

/// The PNG image of a primitive's base color texture.
pub fn image_from_prim(src: &Option<ImageSource>, buffers: &Vec<Vec<u8>>) -> (res: Option<Vec<u8>>)
    requires
        image_source_ok(*src, buffers@),
    ensures
        match image_bytes(*src, buffers@) {
            Some(b) => res is Some && res->0@ == b,
            None => res is None,
        },
{
    match src {
        Some(ImageSource::View { view, mime_type }) => {
            if !str_eq(mime_type.as_str(), "image/png") {
                return None;
            }
            let buffer = &buffers[view.buffer];
            let start = view.offset;
            let bl = buffer.len();
            let end = start + view.length;
            let mut out: Vec<u8> = Vec::new();
            let mut i: usize = start;
            while i < end
                invariant
                    start <= i <= end,
                    end <= buffer@.len(),
                    out@ =~= buffer@.subrange(start as int, i as int),
                decreases end - i,
            {
                out.push(buffer[i]);
                i = i + 1;
            }
            Some(out)
        },
        _ => None,
    }
}

/// The custom properties of a node in the reference zone.
pub struct ReferenceExtras {
    pub _type: Option<String>,
    pub _noref: Option<String>,
    pub _entity: Option<String>,
    pub _decor: Option<String>,
}

/// The custom properties of a placed node.
pub struct InstanceExtras {
    pub _type: Option<String>,
    pub _decor: Option<String>,
    pub _entity: Option<String>,
}

/// What a node is taken for.
#[derive(Debug, Clone, PartialEq, Eq)]
pub enum NodeRole {
    Skip,
    Decor(String),
    Entity(String),
}

/// The view of an optional string.
pub open spec fn opt_view(o: Option<String>) -> Option<Seq<char>> {
    match o {
        Some(s) => Some(s@),
        None => None,
    }
}

/// The view of a node's role: 0 to skip it, 1 for a decoration, 2 for an
/// entity, with its name.
pub open spec fn role_view(r: NodeRole) -> (int, Seq<char>) {
    match r {
        NodeRole::Skip => (0, Seq::empty()),
        NodeRole::Decor(n) => (1, n@),
        NodeRole::Entity(n) => (2, n@),
    }
}

/// What a node of the reference zone is, by its properties (`None` where
/// they are JSON null): no model where "_noref" is "true"; a decoration
/// model where "_type" is "decor" and "_decor" names it; an entity model
/// where "_type" is "entity" and "_entity" names it; else nothing.
pub open spec fn reference_role(e: Option<ReferenceExtras>) -> (int, Seq<char>) {
    match e {
        None => (0, Seq::empty()),
        Some(x) => if opt_view(x._noref) == Some("true"@) {
            (0, Seq::empty())
        } else if opt_view(x._type) == Some("decor"@) && x._decor is Some {
            (1, x._decor->0@)
        } else if opt_view(x._type) == Some("entity"@) && x._entity is Some {
            (2, x._entity->0@)
        } else {
            (0, Seq::empty())
        },
    }
}

fn is_some_str(o: &Option<String>, s: &str) -> (res: bool)
    ensures
        res == (opt_view(*o) == Some(s@)),
{
    match o {
        Some(t) => str_eq(t.as_str(), s),
        None => false,
    }
}

/// What a node of the reference zone is, by its properties.
pub fn reference_kind(e: &Option<ReferenceExtras>) -> (res: NodeRole)
    ensures
        role_view(res) == reference_role(*e),
{
    match e {
        None => NodeRole::Skip,
        Some(x) => {
            if is_some_str(&x._noref, "true") {
                NodeRole::Skip
            } else if is_some_str(&x._type, "decor") && x._decor.is_some() {
                NodeRole::Decor(x._decor.clone().unwrap())
            } else if is_some_str(&x._type, "entity") && x._entity.is_some() {
                NodeRole::Entity(x._entity.clone().unwrap())
            } else {
                NodeRole::Skip
            }
        },
    }
}

/// What a placed node is, by its properties: a decoration where "_type" is
/// "decor" and "_decor" names its model; an entity where "_type" is
/// "entity" and "_entity" names its model; else nothing.
pub open spec fn instance_role(e: Option<InstanceExtras>) -> (int, Seq<char>) {
    match e {
        None => (0, Seq::empty()),
        Some(x) => if opt_view(x._type) == Some("decor"@) && x._decor is Some {
            (1, x._decor->0@)
        } else if opt_view(x._type) == Some("entity"@) && x._entity is Some {
            (2, x._entity->0@)
        } else {
            (0, Seq::empty())
        },
    }
}

/// What a placed node is, by its properties.
pub fn instance_kind(e: &Option<InstanceExtras>) -> (res: NodeRole)
    ensures
        role_view(res) == instance_role(*e),
{
    match e {
        None => NodeRole::Skip,
        Some(x) => {
            if is_some_str(&x._type, "decor") && x._decor.is_some() {
                NodeRole::Decor(x._decor.clone().unwrap())
            } else if is_some_str(&x._type, "entity") && x._entity.is_some() {
                NodeRole::Entity(x._entity.clone().unwrap())
            } else {
                NodeRole::Skip
            }
        },
    }
}

/// The parameter strings after interning, into `t`, the key and then the
/// value of each of the first `n` pairs of `kvp`, and the positions this
/// gives, two per pair.
pub open spec fn intern_pairs(t: Seq<Seq<char>>, kvp: Seq<(Seq<char>, Seq<char>)>, n: nat) -> (
    Seq<Seq<char>>,
    Seq<int>,
)
    decreases n,
{
    if n == 0 {
        (t, Seq::empty())
    } else {
        let before = intern_pairs(t, kvp, (n - 1) as nat);
        let k = intern(before.0, kvp[n - 1].0);
        let v = intern(k.0, kvp[n - 1].1);
        (v.0, before.1.push(k.1).push(v.1))
    }
}

proof fn lemma_intern_pairs_len(t: Seq<Seq<char>>, kvp: Seq<(Seq<char>, Seq<char>)>, n: nat)
    ensures
        intern_pairs(t, kvp, n).0.len() <= t.len() + 2 * n,
        intern_pairs(t, kvp, n).1.len() == 2 * n,
    decreases n,
{
    if n > 0 {
        lemma_intern_pairs_len(t, kvp, (n - 1) as nat);
    }
}

/// Stores the keys and values of `kvp` as parameter strings, in order, and
/// gives their positions: key, value, key, value, and so on.
pub fn intern_params(kvp: &Vec<(String, String)>, bb: &mut BigBuffer) -> (res: Vec<u32>)
    requires
        old(bb).wf(),
        old(bb).kv_strings().len() + 2 * kvp@.len() <= u32::MAX,
    ensures
        final(bb).wf(),
        final(bb).kv_strings() == intern_pairs(
            old(bb).kv_strings(),
            pairs_view(kvp@),
            kvp@.len(),
        ).0,
        res@.len() == 2 * kvp@.len(),
        forall|i: int|
            0 <= i < res@.len() ==> res@[i] == intern_pairs(
                old(bb).kv_strings(),
                pairs_view(kvp@),
                kvp@.len(),
            ).1[i],
        final(bb).floats() == old(bb).floats(),
        final(bb).images() == old(bb).images(),
        final(bb).decor_names() == old(bb).decor_names(),
        final(bb).entity_names() == old(bb).entity_names(),
{
    let ghost t0 = bb.kv_strings();
    let ghost pv = pairs_view(kvp@);
    let mut p: Vec<u32> = Vec::new();
    let n = kvp.len();
    let mut i: usize = 0;
    while i < n
        invariant
            n == kvp@.len(),
            pv == pairs_view(kvp@),
            i <= n,
            bb.wf(),
            t0.len() + 2 * n <= u32::MAX,
            bb.kv_strings() == intern_pairs(t0, pv, i as nat).0,
            p@.len() == 2 * i,
            forall|j: int| 0 <= j < p@.len() ==> p@[j] == intern_pairs(t0, pv, i as nat).1[j],
            bb.floats() == old(bb).floats(),
            bb.images() == old(bb).images(),
            bb.decor_names() == old(bb).decor_names(),
            bb.entity_names() == old(bb).entity_names(),
        decreases n - i,
    {
        proof {
            lemma_intern_pairs_len(t0, pv, i as nat);
        }
        let (k, v) = &kvp[i];
        let ghost before = intern_pairs(t0, pv, i as nat);
        let ki = bb.add_kv_string(k.as_str());
        let vi = bb.add_kv_string(v.as_str());
        p.push(ki);
        p.push(vi);
        proof {
            let after = intern_pairs(t0, pv, (i + 1) as nat);
            assert(pv[i as int] == (k@, v@));
            assert forall|j: int| 0 <= j < p@.len() implies p@[j] == after.1[j] by {
                if j < 2 * i {
                    assert(after.1[j] == before.1[j]);
                }
            }
        }
        i = i + 1;
    }
    p
}

/// Whether the properties of a node hold "_noref" set to "true".
pub fn has_noref(kvp: &Vec<(String, String)>) -> (res: bool)
    ensures
        res == pairs_view(kvp@).contains(("_noref"@, "true"@)),
{
    let ghost pv = pairs_view(kvp@);
    let mut i: usize = 0;
    while i < kvp.len()
        invariant
            pv == pairs_view(kvp@),
            i <= kvp@.len(),
            forall|j: int| 0 <= j < i ==> pv[j] != ("_noref"@, "true"@),
        decreases kvp@.len() - i,
    {
        let (k, v) = &kvp[i];
        if str_eq(k.as_str(), "_noref") && str_eq(v.as_str(), "true") {
            assert(pv[i as int] == ("_noref"@, "true"@));
            return true;
        }
        i = i + 1;
    }
    false
}

/// The model of a placed entity named `e`: none where its properties hold
/// "_noref" set to "true"; else the position of `e` among the entity names,
/// and the node is dropped (`None`) where no model has that name.
pub open spec fn entity_model(
    names: Seq<Seq<char>>,
    e: Seq<char>,
    kvp: Seq<(Seq<char>, Seq<char>)>,
) -> Option<Option<u32>> {
    if kvp.contains(("_noref"@, "true"@)) {
        Some(None)
    } else if names.contains(e) {
        Some(Some(crate::interning::position_of(names, e) as u32))
    } else {
        None
    }
}

/// The model and parameters of a placed entity named `e` with the string
/// properties `kvp`; `None` where the node is dropped, before any
/// parameter is stored.
pub fn entity_instance_core(e: &str, kvp: &Vec<(String, String)>, bb: &mut BigBuffer) -> (res:
    Option<(Option<u32>, Vec<u32>)>)
    requires
        old(bb).wf(),
        old(bb).kv_strings().len() + 2 * kvp@.len() <= u32::MAX,
    ensures
        final(bb).wf(),
        final(bb).floats() == old(bb).floats(),
        final(bb).images() == old(bb).images(),
        final(bb).decor_names() == old(bb).decor_names(),
        final(bb).entity_names() == old(bb).entity_names(),
        ({
            let model = entity_model(old(bb).entity_names(), e@, pairs_view(kvp@));
            let (table, positions) = intern_pairs(
                old(bb).kv_strings(),
                pairs_view(kvp@),
                kvp@.len(),
            );
            &&& model is None ==> res is None && final(bb).kv_strings() == old(bb).kv_strings()
            &&& model is Some ==> final(bb).kv_strings() == table && (res matches Some(
                (index, params),
            ) && index == model->0 && params@.len() == positions.len() && forall|i: int|
                0 <= i < positions.len() ==> params@[i] == positions[i])
        }),
{
    let mut ei: Option<u32> = None;
    if !has_noref(kvp) {
        match bb.get_entt_index(e) {
            Some(i) => {
                ei = Some(i);
            },
            None => {
                return None;
            },
        }
    }
    let p = intern_params(kvp, bb);
    proof {
        lemma_intern_pairs_len(old(bb).kv_strings(), pairs_view(kvp@), kvp@.len());
    }
    Some((ei, p))
}

/// Registers a decoration model named `name` whose texture is `image`: its
/// name's position and its texture's position, or `None` where a model of
/// that name was registered before, in which case nothing is stored.
pub fn register_decor_reference(name: &str, image: Vec<u8>, bb: &mut BigBuffer) -> (res: Option<
    (u32, u32),
>)
    requires
        old(bb).wf(),
        old(bb).decor_names().len() < u32::MAX,
        old(bb).images().len() < u32::MAX,
    ensures
        final(bb).wf(),
        final(bb).floats() == old(bb).floats(),
        final(bb).entity_names() == old(bb).entity_names(),
        final(bb).kv_strings() == old(bb).kv_strings(),
        old(bb).decor_names().contains(name@) ==> res is None && final(bb).decor_names()
            == old(bb).decor_names() && final(bb).images() == old(bb).images(),
        !old(bb).decor_names().contains(name@) ==> ({
            let (images, texture) = intern(old(bb).images(), image@);
            &&& final(bb).decor_names() == old(bb).decor_names().push(name@)
            &&& final(bb).images() == images
            &&& res == Some((old(bb).decor_names().len() as u32, texture as u32))
        }),
{
    match bb.add_decor_name(name) {
        Err(()) => None,
        Ok(name_id) => {
            let texture = bb.add_image(image);
            Some((name_id, texture))
        },
    }
}

/// Registers an entity model named `name` whose texture is `image`: its
/// name's position and its texture's position, or `None` where a model of
/// that name was registered before, in which case nothing is stored.
pub fn register_entity_reference(name: &str, image: Vec<u8>, bb: &mut BigBuffer) -> (res: Option<
    (u32, u32),
>)
    requires
        old(bb).wf(),
        old(bb).entity_names().len() < u32::MAX,
        old(bb).images().len() < u32::MAX,
    ensures
        final(bb).wf(),
        final(bb).floats() == old(bb).floats(),
        final(bb).decor_names() == old(bb).decor_names(),
        final(bb).kv_strings() == old(bb).kv_strings(),
        old(bb).entity_names().contains(name@) ==> res is None && final(bb).entity_names()
            == old(bb).entity_names() && final(bb).images() == old(bb).images(),
        !old(bb).entity_names().contains(name@) ==> ({
            let (images, texture) = intern(old(bb).images(), image@);
            &&& final(bb).entity_names() == old(bb).entity_names().push(name@)
            &&& final(bb).images() == images
            &&& res == Some((old(bb).entity_names().len() as u32, texture as u32))
        }),
{
    match bb.add_entt_name(name) {
        Err(()) => None,
        Ok(name_id) => {
            let texture = bb.add_image(image);
            Some((name_id, texture))
        },
    }
}

/// Reading little-endian numbers loses nothing: each 16-bit number's low
/// and high bytes are the two bytes it was read from, and each 32-bit
/// number's bytes, lowest first, are the four bytes it was read from.
pub proof fn lemma_le_bytes_read_back(b: Seq<u8>)
    ensures
        forall|i: int|
            0 <= i < b.len() / 2 ==> #[trigger] le_u16s(b)[i] % 256 == b[2 * i] && le_u16s(b)[i] / 256
                == b[2 * i + 1] && le_u16s(b)[i] < 65536,
        forall|i: int|
            0 <= i < b.len() / 4 ==> #[trigger] le_u32s(b)[i] % 256 == b[4 * i] && (le_u32s(b)[i]
                / 256) % 256 == b[4 * i + 1] && (le_u32s(b)[i] / 65536) % 256 == b[4 * i + 2]
                && le_u32s(b)[i] / 16777216 == b[4 * i + 3],
{
    assert forall|i: int| 0 <= i < b.len() / 2 implies #[trigger] le_u16s(b)[i] % 256 == b[2 * i]
        && le_u16s(b)[i] / 256 == b[2 * i + 1] && le_u16s(b)[i] < 65536 by {
        assert(2 * i + 1 < b.len()) by (nonlinear_arith)
            requires
                0 <= i < b.len() / 2,
        ;
        let (x, y) = (b[2 * i] as int, b[2 * i + 1] as int);
        assert((x + 256 * y) % 256 == x && (x + 256 * y) / 256 == y) by (nonlinear_arith)
            requires
                0 <= x < 256,
                0 <= y < 256,
        ;
    }
    assert forall|i: int| 0 <= i < b.len() / 4 implies #[trigger] le_u32s(b)[i] % 256 == b[4 * i]
        && (le_u32s(b)[i] / 256) % 256 == b[4 * i + 1] && (le_u32s(b)[i] / 65536) % 256 == b[4 * i
        + 2] && le_u32s(b)[i] / 16777216 == b[4 * i + 3] by {
        assert(4 * i + 3 < b.len()) by (nonlinear_arith)
            requires
                0 <= i < b.len() / 4,
        ;
        let (x, y, z, w) = (b[4 * i] as int, b[4 * i + 1] as int, b[4 * i + 2] as int, b[4 * i + 3] as int);
        let v = x + 256 * y + 65536 * z + 16777216 * w;
        assert(v % 256 == x && (v / 256) % 256 == y && (v / 65536) % 256 == z && v / 16777216 == w)
            by (nonlinear_arith)
            requires
                0 <= x < 256,
                0 <= y < 256,
                0 <= z < 256,
                0 <= w < 256,
                v == x + 256 * y + 65536 * z + 16777216 * w,
        ;
    }
}

/// What a node is follows its own properties: a node whose "_noref" is
/// "true" is no model; a decoration carries its "_decor" name and has
/// "_type" "decor"; an entity carries its "_entity" name and has "_type"
/// "entity"; a node with "_type" "decor" and a "_decor" name, and no
/// "_noref" of "true", is that decoration.
pub proof fn lemma_reference_roles(e: Option<ReferenceExtras>)
    ensures
        e is None ==> reference_role(e).0 == 0,
        e matches Some(x) ==> {
            &&& opt_view(x._noref) == Some("true"@) ==> reference_role(e).0 == 0
            &&& reference_role(e).0 == 1 ==> opt_view(x._type) == Some("decor"@) && opt_view(x._decor)
                == Some(reference_role(e).1)
            &&& reference_role(e).0 == 2 ==> opt_view(x._type) == Some("entity"@) && opt_view(
                x._entity,
            ) == Some(reference_role(e).1)
            &&& opt_view(x._noref) != Some("true"@) && opt_view(x._type) == Some("decor"@)
                && x._decor is Some ==> reference_role(e) == (1int, x._decor->0@)
            &&& opt_view(x._noref) != Some("true"@) && opt_view(x._type) == Some("entity"@)
                && x._entity is Some ==> reference_role(e) == (2int, x._entity->0@)
        },
{
    reveal_strlit("decor");
    reveal_strlit("entity");
    assert("decor"@.len() != "entity"@.len());
}

/// A placed node is a decoration named by its "_decor" property when its
/// "_type" is "decor", an entity named by its "_entity" property when its
/// "_type" is "entity", and nothing otherwise.
pub proof fn lemma_instance_roles(e: Option<InstanceExtras>)
    ensures
        e is None ==> instance_role(e).0 == 0,
        e matches Some(x) ==> {
            &&& opt_view(x._type) == Some("decor"@) && x._decor is Some ==> instance_role(e) == (
                1int,
                x._decor->0@,
            )
            &&& opt_view(x._type) == Some("entity"@) && x._entity is Some ==> instance_role(e) == (
                2int,
                x._entity->0@,
            )
            &&& !(opt_view(x._type) == Some("decor"@) || opt_view(x._type) == Some("entity"@))
                ==> instance_role(e).0 == 0
        },
{
    reveal_strlit("decor");
    reveal_strlit("entity");
    assert("decor"@.len() != "entity"@.len());
}

/// The string-valued members kept from an object are among its members,
/// in the object's order, and every string-valued member is kept.
pub proof fn lemma_string_members(m: Seq<(Seq<char>, Option<Seq<char>>)>)
    ensures
        string_members(m).len() <= m.len(),
        forall|j: int|
            0 <= j < string_members(m).len() ==> m.contains(
                (#[trigger] string_members(m)[j].0, Some(string_members(m)[j].1)),
            ),
        forall|i: int|
            0 <= i < m.len() && (#[trigger] m[i]).1 is Some ==> string_members(m).contains(
                (m[i].0, m[i].1->0),
            ),
    decreases m.len(),
{
    if m.len() > 0 {
        let d = m.drop_last();
        lemma_string_members(d);
        let before = string_members(d);
        let now = string_members(m);
        assert forall|j: int| 0 <= j < now.len() implies m.contains(
            (#[trigger] now[j].0, Some(now[j].1)),
        ) by {
            if j < before.len() {
                assert(now[j] == before[j]);
                let i = choose|i: int| 0 <= i < d.len() && d[i] == (before[j].0, Some(before[j].1));
                assert(m[i] == d[i]);
            } else {
                assert(m[m.len() - 1] == (now[j].0, Some(now[j].1)));
            }
        }
        assert forall|i: int| 0 <= i < m.len() && (#[trigger] m[i]).1 is Some implies now.contains(
            (m[i].0, m[i].1->0),
        ) by {
            if i < m.len() - 1 {
                assert(d[i] == m[i]);
                let j = choose|j: int| 0 <= j < before.len() && before[j] == (d[i].0, d[i].1->0);
                assert(now[j] == before[j]);
            } else {
                assert(now[now.len() - 1] == (m[i].0, m[i].1->0));
            }
        }
    }
}

} // verus!
