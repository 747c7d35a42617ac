//! Reading splat files: the PLY document (parsed by `ply_rs_bw`), the
//! properties the loader reads from it, and the metadata it takes from the
//! optional `image_size` and `intrinsic` elements.  Floating-point
//! property values are held by their bits.
use vstd::prelude::*;

use crate::errors::PlyError;
use crate::text::{char_vec, str_eq, string_from_chars};

verus! {

/// One property value of a PLY element.  Lists are kept only as such.
#[derive(Clone, Copy, Debug, PartialEq, Eq, Structural)]
pub enum PlyValue {
    Char(i8),
    UChar(u8),
    Short(i16),
    UShort(u16),
    Int(i32),
    UInt(u32),
    /// The bits of an `f32`.
    Float(u32),
    /// The bits of an `f64`.
    Double(u64),
    List,
}

/// All elements of one kind, each a list of named properties in file
/// order.
pub struct PlyElements {
    pub name: String,
    pub items: Vec<Vec<(String, PlyValue)>>,
}

/// The payload of a PLY file: its element kinds in file order.
pub struct PlyDocument {
    pub elements: Vec<PlyElements>,
}

/// What `ply_rs_bw`'s parser reads from the bytes of a file: the document,
/// or its error text.
pub uninterp spec fn ply_read(bytes: Seq<u8>) -> Result<PlyDocument, Seq<char>>;

/// `ply_rs_bw::ply::Property`, converted by [`value_from_ply`].
#[verifier::external_type_specification]
#[verifier::external_body]
pub struct ExPlyProperty(ply_rs_bw::ply::Property);

/// Moves one `ply_rs_bw` property into a [`PlyValue`], a float by its bits.
#[verifier::external_body]
fn value_from_ply(p: ply_rs_bw::ply::Property) -> PlyValue {
    match p {
        ply_rs_bw::ply::Property::Char(v) => PlyValue::Char(v),
        ply_rs_bw::ply::Property::UChar(v) => PlyValue::UChar(v),
        ply_rs_bw::ply::Property::Short(v) => PlyValue::Short(v),
        ply_rs_bw::ply::Property::UShort(v) => PlyValue::UShort(v),
        ply_rs_bw::ply::Property::Int(v) => PlyValue::Int(v),
        ply_rs_bw::ply::Property::UInt(v) => PlyValue::UInt(v),
        ply_rs_bw::ply::Property::Float(v) => PlyValue::Float(v.to_bits()),
        ply_rs_bw::ply::Property::Double(v) => PlyValue::Double(v.to_bits()),
        _ => PlyValue::List,
    }
}

/// Parses the bytes of a PLY file with `ply_rs_bw::parser::Parser::read_ply`.
/// The contract claims only that the result is the parser's document (its
/// payload, element kinds and properties in file order) or the text of its
/// error; what the parser accepts is its own, and is named by [`ply_read`].
#[verifier::external_body]
fn read_ply(bytes: &[u8]) -> (r: Result<PlyDocument, String>)
    ensures
        match r {
            Ok(d) => ply_read(bytes@) == Ok::<PlyDocument, Seq<char>>(d),
            Err(e) => ply_read(bytes@) == Err::<PlyDocument, Seq<char>>(e@),
        },
{
    let parser = ply_rs_bw::parser::Parser::<ply_rs_bw::ply::DefaultElement>::new();
    let ply = match parser.read_ply(&mut &bytes[..]) {
        Ok(ply) => ply,
        Err(e) => return Err(e.to_string()),
    };
    let elements = ply.payload.into_iter().map(|(name, items)| PlyElements {
        name,
        items: items.into_iter().map(|e| e.into_iter().map(|(k, p)| (k, value_from_ply(p))).collect()).collect(),
    });
    Ok(PlyDocument { elements: elements.collect() })
}

/// The document of a PLY file, or a parse error with the parser's text.
pub fn parse_ply(bytes: &[u8]) -> (r: Result<PlyDocument, PlyError>)
    ensures
        match r {
            Ok(d) => ply_read(bytes@) == Ok::<PlyDocument, Seq<char>>(d),
            Err(e) => e matches PlyError::Parse(t) && ply_read(bytes@) == Err::<PlyDocument, Seq<char>>(t@),
        },
{
    match read_ply(bytes) {
        Ok(d) => Ok(d),
        Err(e) => Err(PlyError::Parse(e)),
    }
}

/// The first property of an element named `name`.
pub open spec fn lookup(props: Seq<(String, PlyValue)>, name: Seq<char>) -> Option<PlyValue>
    decreases props.len(),
{
    if props.len() == 0 {
        None
    } else if props[0].0@ == name {
        Some(props[0].1)
    } else {
        lookup(props.drop_first(), name)
    }
}

/// The value of property `name` of an element.
pub fn property(props: &Vec<(String, PlyValue)>, name: &str) -> (r: Option<PlyValue>)
    ensures
        r == lookup(props@, name@),
{
    let mut i: usize = 0;
    assert(props@.skip(0) =~= props@);
    while i < props.len()
        invariant
            i <= props@.len(),
            lookup(props@, name@) == lookup(props@.skip(i as int), name@),
        decreases props@.len() - i,
    {
        assert(props@.skip(i as int).drop_first() =~= props@.skip(i + 1));
        assert(props@.skip(i as int)[0] == props@[i as int]);
        if str_eq(props[i].0.as_str(), name) {
            return Some(props[i].1);
        }
        i = i + 1;
    }
    None
}

/// The message of a property that is not a number.
pub open spec fn not_a_number(name: Seq<char>) -> Seq<char> {
    "Property "@ + name + " is not a number"@
}

/// A numeric property: missing properties and lists are errors.
pub open spec fn number_spec(props: Seq<(String, PlyValue)>, name: Seq<char>) -> Result<PlyValue, Seq<char>> {
    match lookup(props, name) {
        None => Err(name),
        Some(PlyValue::List) => Err(not_a_number(name)),
        Some(v) => Ok(v),
    }
}

fn concat3(a: &str, b: &str, c: &str) -> (r: String)
    ensures
        r@ == a@ + b@ + c@,
{
    let mut cs = char_vec(a);
    let mut bs = char_vec(b);
    let mut ds = char_vec(c);
    cs.append(&mut bs);
    cs.append(&mut ds);
    string_from_chars(cs.as_slice())
}

/// The numeric property `name` of an element: `MissingProperty(name)`
/// when it is absent, `Parse("Property <name> is not a number")` for a
/// list.
pub fn number_property(props: &Vec<(String, PlyValue)>, name: &str) -> (r: Result<PlyValue, PlyError>)
    ensures
        match number_spec(props@, name@) {
            Ok(v) => r == Ok::<PlyValue, PlyError>(v),
            Err(t) => match r {
                Err(PlyError::MissingProperty(m)) => lookup(props@, name@) is None && m@ == t,
                Err(PlyError::Parse(m)) => lookup(props@, name@) == Some(PlyValue::List) && m@ == t,
                _ => false,
            },
        },
{
    match property(props, name) {
        None => Err(PlyError::MissingProperty(name.to_owned())),
        Some(PlyValue::List) => Err(PlyError::Parse(concat3("Property ", name, " is not a number"))),
        Some(v) => Ok(v),
    }
}

/// A floating-point property (`float` or `double`), as the metadata reads
/// it.
pub fn float_property(props: &Vec<(String, PlyValue)>, name: &str) -> (r: Option<PlyValue>)
    ensures
        r == match lookup(props@, name@) {
            Some(PlyValue::Float(b)) => Some(PlyValue::Float(b)),
            Some(PlyValue::Double(b)) => Some(PlyValue::Double(b)),
            _ => None,
        },
{
    match property(props, name) {
        Some(PlyValue::Float(b)) => Some(PlyValue::Float(b)),
        Some(PlyValue::Double(b)) => Some(PlyValue::Double(b)),
        _ => None,
    }
}

/// An integer property read as `u32` the way `as` converts: `uint`,
/// `int`, `ushort` and `short` only.
pub open spec fn uint_spec(v: Option<PlyValue>) -> Option<u32> {
    match v {
        Some(PlyValue::UInt(x)) => Some(x),
        Some(PlyValue::Int(x)) => Some(x as u32),
        Some(PlyValue::UShort(x)) => Some(x as u32),
        Some(PlyValue::Short(x)) => Some(x as u32),
        _ => None,
    }
}

/// An integer property read as `u32`.
pub fn uint_property(props: &Vec<(String, PlyValue)>, name: &str) -> (r: Option<u32>)
    ensures
        r == uint_spec(lookup(props@, name@)),
{
    match property(props, name) {
        Some(PlyValue::UInt(x)) => Some(x),
        Some(PlyValue::Int(x)) => Some(x as u32),
        Some(PlyValue::UShort(x)) => Some(x as u32),
        Some(PlyValue::Short(x)) => Some(x as u32),
        _ => None,
    }
}

/// The index of the first element kind named `name`.
pub open spec fn kind_index(kinds: Seq<PlyElements>, name: Seq<char>) -> Option<int>
    decreases kinds.len(),
{
    if kinds.len() == 0 {
        None
    } else if kinds.last().name@ == name && kind_index(kinds.drop_last(), name) is None {
        Some(kinds.len() - 1)
    } else {
        kind_index(kinds.drop_last(), name)
    }
}

/// The index of the first element kind named `name`, if any.
pub fn find_elements(doc: &PlyDocument, name: &str) -> (r: Option<usize>)
    ensures
        match r {
            Some(i) => kind_index(doc.elements@, name@) == Some(i as int) && i < doc.elements@.len(),
            None => kind_index(doc.elements@, name@) is None,
        },
{
    let mut i: usize = 0;
    while i < doc.elements.len()
        invariant
            i <= doc.elements@.len(),
            kind_index(doc.elements@.take(i as int), name@) is None,
        decreases doc.elements@.len() - i,
    {
        assert(doc.elements@.take(i + 1).drop_last() =~= doc.elements@.take(i as int));
        assert(doc.elements@.take(i + 1).last() == doc.elements@[i as int]);
        if str_eq(doc.elements[i].name.as_str(), name) {
            proof {
                lemma_kind_index_prefix(doc.elements@, name@, (i + 1) as int);
            }
            return Some(i);
        }
        i = i + 1;
    }
    assert(doc.elements@.take(doc.elements@.len() as int) =~= doc.elements@);
    None
}

proof fn lemma_kind_index_prefix(kinds: Seq<PlyElements>, name: Seq<char>, n: int)
    requires
        0 <= n <= kinds.len(),
        kind_index(kinds.take(n), name) is Some,
    ensures
        kind_index(kinds, name) == kind_index(kinds.take(n), name),
    decreases kinds.len(),
{
    if n < kinds.len() {
        assert(kinds.drop_last().take(n) =~= kinds.take(n));
        lemma_kind_index_prefix(kinds.drop_last(), name, n);
        assert(kind_index(kinds.drop_last(), name) is Some);
    } else {
        assert(kinds.take(n) =~= kinds);
    }
}

/// The image size of a splat file: the `image_size` properties of the
/// first two `image_size` elements when both are integers, else 640 by
/// 480.
pub open spec fn image_size_spec(doc: PlyDocument) -> (u32, u32) {
    match kind_index(doc.elements@, "image_size"@) {
        Some(k) => {
            let items = doc.elements@[k].items@;
            if items.len() >= 2 {
                match (
                    uint_spec(lookup(items[0]@, "image_size"@)),
                    uint_spec(lookup(items[1]@, "image_size"@)),
                ) {
                    (Some(w), Some(h)) => (w, h),
                    _ => (640u32, 480u32),
                }
            } else {
                (640u32, 480u32)
            }
        },
        None => (640u32, 480u32),
    }
}

/// The image size that a splat file records.
pub fn image_size(doc: &PlyDocument) -> (r: (u32, u32))
    ensures
        r == image_size_spec(*doc),
{
    match find_elements(doc, "image_size") {
        Some(k) => {
            let items = &doc.elements[k].items;
            if items.len() >= 2 {
                match (uint_property(&items[0], "image_size"), uint_property(&items[1], "image_size")) {
                    (Some(w), Some(h)) => (w, h),
                    _ => (640, 480),
                }
            } else {
                (640, 480)
            }
        },
        None => (640, 480),
    }
}

/// The focal length that a splat file records: the `intrinsic` property
/// of the first `intrinsic` element when it is a float or double (the
/// loader's default otherwise is 512).
pub open spec fn focal_spec(doc: PlyDocument) -> Option<PlyValue> {
    match kind_index(doc.elements@, "intrinsic"@) {
        Some(k) => {
            let items = doc.elements@[k].items@;
            if items.len() > 0 {
                match lookup(items[0]@, "intrinsic"@) {
                    Some(PlyValue::Float(b)) => Some(PlyValue::Float(b)),
                    Some(PlyValue::Double(b)) => Some(PlyValue::Double(b)),
                    _ => None,
                }
            } else {
                None
            }
        },
        None => None,
    }
}

/// The focal length that a splat file records, if any.
pub fn focal_length(doc: &PlyDocument) -> (r: Option<PlyValue>)
    ensures
        r == focal_spec(*doc),
{
    match find_elements(doc, "intrinsic") {
        Some(k) => {
            let items = &doc.elements[k].items;
            if items.len() > 0 {
                float_property(&items[0], "intrinsic")
            } else {
                None
            }
        },
        None => None,
    }
}

/// The index of the `vertex` elements, or the error of a file without
/// them.
pub fn vertex_elements(doc: &PlyDocument) -> (r: Result<usize, PlyError>)
    ensures
        match r {
            Ok(i) => kind_index(doc.elements@, "vertex"@) == Some(i as int) && i < doc.elements@.len(),
            Err(e) => kind_index(doc.elements@, "vertex"@) is None && (e matches PlyError::Parse(t)
                && t@ == "Missing vertex element"@),
        },
{
    match find_elements(doc, "vertex") {
        Some(i) => Ok(i),
        None => Err(PlyError::Parse("Missing vertex element".to_owned())),
    }
}

/// The position of a vertex can be read: its `x`, `y` and `z` are numbers.
pub open spec fn has_position(props: Seq<(String, PlyValue)>) -> bool {
    &&& number_spec(props, "x"@) is Ok
    &&& number_spec(props, "y"@) is Ok
    &&& number_spec(props, "z"@) is Ok
}

/// The position of a vertex, as its `x`, `y` and `z` values.
pub open spec fn position_spec(props: Seq<(String, PlyValue)>) -> (PlyValue, PlyValue, PlyValue) {
    (
        number_spec(props, "x"@)->Ok_0,
        number_spec(props, "y"@)->Ok_0,
        number_spec(props, "z"@)->Ok_0,
    )
}

/// The first of `x`, `y`, `z` that a vertex lacks as a number.
pub open spec fn first_bad_coordinate(props: Seq<(String, PlyValue)>) -> Seq<char> {
    if number_spec(props, "x"@) is Err {
        "x"@
    } else if number_spec(props, "y"@) is Err {
        "y"@
    } else {
        "z"@
    }
}

/// `e` is the error that reading property `name` gives, as
/// [`number_property`] reports it.
pub open spec fn property_error(props: Seq<(String, PlyValue)>, name: Seq<char>, e: PlyError) -> bool {
    match number_spec(props, name) {
        Ok(_) => false,
        Err(t) => match e {
            PlyError::MissingProperty(m) => lookup(props, name) is None && m@ == t,
            PlyError::Parse(m) => lookup(props, name) == Some(PlyValue::List) && m@ == t,
            _ => false,
        },
    }
}

fn coordinate(props: &Vec<(String, PlyValue)>, name: &str) -> (r: Result<PlyValue, PlyError>)
    ensures
        match r {
            Ok(v) => number_spec(props@, name@) == Ok::<PlyValue, Seq<char>>(v),
            Err(e) => property_error(props@, name@, e),
        },
{
    number_property(props, name)
}

/// The positions of the vertices, in order; a vertex without a numeric
/// `x`, `y` or `z` stops the reading with the error of the first such
/// coordinate of the first such vertex.
pub fn vertex_positions(vertices: &Vec<Vec<(String, PlyValue)>>) -> (r: Result<
    Vec<(PlyValue, PlyValue, PlyValue)>,
    PlyError,
>)
    ensures
        match r {
            Ok(v) => {
                &&& v@.len() == vertices@.len()
                &&& forall|k: int|
                    0 <= k < vertices@.len() ==> has_position(#[trigger] vertices@[k]@) && v@[k]
                        == position_spec(vertices@[k]@)
            },
            Err(e) => exists|k: int|
                0 <= k < vertices@.len() && (forall|j: int| 0 <= j < k ==> has_position(
                    #[trigger] vertices@[j]@,
                )) && !has_position(#[trigger] vertices@[k]@) && property_error(
                    vertices@[k]@,
                    first_bad_coordinate(vertices@[k]@),
                    e,
                ),
        },
{
    let mut out: Vec<(PlyValue, PlyValue, PlyValue)> = Vec::new();
    let mut k: usize = 0;
    while k < vertices.len()
        invariant
            k <= vertices@.len(),
            out@.len() == k,
            forall|j: int|
                0 <= j < k ==> has_position(#[trigger] vertices@[j]@) && out@[j] == position_spec(
                    vertices@[j]@,
                ),
        decreases vertices@.len() - k,
    {
        let props = &vertices[k];
        let x = match coordinate(props, "x") {
            Ok(v) => v,
            Err(e) => {
                assert(!has_position(vertices@[k as int]@));
                return Err(e);
            },
        };
        let y = match coordinate(props, "y") {
            Ok(v) => v,
            Err(e) => {
                assert(!has_position(vertices@[k as int]@));
                return Err(e);
            },
        };
        let z = match coordinate(props, "z") {
            Ok(v) => v,
            Err(e) => {
                assert(!has_position(vertices@[k as int]@));
                return Err(e);
            },
        };
        out.push((x, y, z));
        k = k + 1;
    }
    Ok(out)
}

} // verus!
