//! Reading typed values out of JSON: the errors, the `Decode` contract
//! that every decodable type meets, and the generic field readers.

use crate::api::json::{json_of, member, Json};
use vstd::prelude::*;
use vstd::string::StringExecFns;

verus! {

/// Why a frame or a payload could not be decoded.
#[derive(Clone, Copy, Debug, PartialEq, Eq)]
pub enum DecodeError {
    /// A binary frame is no zlib stream.
    Inflate,
    /// The text is no JSON.
    Syntax,
    /// An object was expected.
    NotAnObject,
    /// An array was expected.
    NotAnArray,
    /// A string was expected.
    NotAString,
    /// A boolean was expected.
    NotABool,
    /// An unsigned integer was expected.
    NotAnInteger,
    /// A required member is missing or `null`.
    MissingField(&'static str),
    /// The opcode is none of the gateway's.
    UnexpectedOpcode,
    /// A string that should spell a number does not, or the number is too
    /// large.
    InvalidNumber,
    /// A permission value has a bit that stands for no permission.
    UnknownPermission,
    /// A channel type that the platform does not define.
    UnknownChannelType,
    /// A channel type that the platform defines and this library does not
    /// decode.
    UnsupportedChannelType,
    /// A permission overwrite that is neither for a member nor for a role.
    UnknownOverwriteType,
    /// A relationship type that the platform does not define.
    UnknownRelationshipType,
    /// A presence status that the platform does not define.
    UnknownStatus,
    /// A private channel without a recipient.
    NoRecipient,
}

impl DecodeError {
    /// The words in which the error is described. A missing member is
    /// described by `missing member: ` and its name.
    pub open spec fn description(self) -> Seq<char> {
        match self {
            DecodeError::MissingField(name) => "missing member: "@ + name@,
            DecodeError::Inflate => "the frame is no zlib stream"@,
            DecodeError::Syntax => "the text is no JSON"@,
            DecodeError::NotAnObject => "an object was expected"@,
            DecodeError::NotAnArray => "an array was expected"@,
            DecodeError::NotAString => "a string was expected"@,
            DecodeError::NotABool => "a boolean was expected"@,
            DecodeError::NotAnInteger => "an unsigned integer was expected"@,
            DecodeError::UnexpectedOpcode => "unexpected opcode"@,
            DecodeError::InvalidNumber => "a string spells no number of the expected size"@,
            DecodeError::UnknownPermission => "a permission bit stands for no permission"@,
            DecodeError::UnknownChannelType => "unknown channel type"@,
            DecodeError::UnsupportedChannelType => "channel type is not decoded"@,
            DecodeError::UnknownOverwriteType => "unknown permission overwrite type"@,
            DecodeError::UnknownRelationshipType => "unknown relationship type"@,
            DecodeError::UnknownStatus => "unknown status"@,
            DecodeError::NoRecipient => "a private channel has no recipient"@,
        }
    }

    /// Describes the error in words.
    pub fn describe(&self) -> (r: String)
        ensures
            r@ == self.description(),
    {
        match self {
            DecodeError::MissingField(name) => {
                let mut text = "missing member: ".to_owned();
                text.append(name);
                text
            },
            DecodeError::Inflate => "the frame is no zlib stream".to_owned(),
            DecodeError::Syntax => "the text is no JSON".to_owned(),
            DecodeError::NotAnObject => "an object was expected".to_owned(),
            DecodeError::NotAnArray => "an array was expected".to_owned(),
            DecodeError::NotAString => "a string was expected".to_owned(),
            DecodeError::NotABool => "a boolean was expected".to_owned(),
            DecodeError::NotAnInteger => "an unsigned integer was expected".to_owned(),
            DecodeError::UnexpectedOpcode => "unexpected opcode".to_owned(),
            DecodeError::InvalidNumber => "a string spells no number of the expected size".to_owned(),
            DecodeError::UnknownPermission => "a permission bit stands for no permission".to_owned(),
            DecodeError::UnknownChannelType => "unknown channel type".to_owned(),
            DecodeError::UnsupportedChannelType => "channel type is not decoded".to_owned(),
            DecodeError::UnknownOverwriteType => "unknown permission overwrite type".to_owned(),
            DecodeError::UnknownRelationshipType => "unknown relationship type".to_owned(),
            DecodeError::UnknownStatus => "unknown status".to_owned(),
            DecodeError::NoRecipient => "a private channel has no recipient".to_owned(),
        }
    }
}

/// A JSON value that is kept as it came.
#[derive(Debug, Clone)]
pub struct WrappedValue(pub serde_json::Value);

impl View for WrappedValue {
    type V = Json;

    open spec fn view(&self) -> Json {
        json_of(self.0)
    }
}

/// The first of two possible defects.
pub open spec fn first(a: Option<DecodeError>, b: Option<DecodeError>) -> Option<DecodeError> {
    if a is Some {
        a
    } else {
        b
    }
}

/// Chains the defects of a value's parts in the order in which they are
/// looked for.
pub trait Otherwise {
    /// This defect where there is one, else `next`.
    spec fn otherwise(self, next: Option<DecodeError>) -> Option<DecodeError>;
}

impl Otherwise for Option<DecodeError> {
    open spec fn otherwise(self, next: Option<DecodeError>) -> Option<DecodeError> {
        first(self, next)
    }
}

/// The defect of a value that should be an object.
pub open spec fn object_defect(j: Json) -> Option<DecodeError> {
    if j is Object {
        None
    } else {
        Some(DecodeError::NotAnObject)
    }
}

/// A type that can be decoded from a JSON value.
///
/// `defect` says on which values decoding fails and with which error;
/// `holds` says what the decoded value is. `decode` succeeds exactly on
/// the values without a defect.
pub trait Decode: Sized {
    /// The error that decoding `j` gives, `None` where it succeeds.
    spec fn defect(j: Json) -> Option<DecodeError>;

    /// Whether `self` is what `j` decodes to.
    spec fn holds(&self, j: Json) -> bool;

    fn decode(v: &serde_json::Value) -> (r: Result<Self, DecodeError>)
        ensures
            r is Ok == Self::defect(json_of(*v)) is None,
            r matches Ok(x) ==> x.holds(json_of(*v)),
            r matches Err(e) ==> Self::defect(json_of(*v)) == Some(e),
    ;
}

impl Decode for String {
    open spec fn defect(j: Json) -> Option<DecodeError> {
        if j is Text {
            None
        } else {
            Some(DecodeError::NotAString)
        }
    }

    open spec fn holds(&self, j: Json) -> bool {
        j == Json::Text(self@)
    }

    fn decode(v: &serde_json::Value) -> (r: Result<Self, DecodeError>) {
        match v.as_str() {
            Some(s) => Ok(s.to_owned()),
            None => Err(DecodeError::NotAString),
        }
    }
}

impl Decode for bool {
    open spec fn defect(j: Json) -> Option<DecodeError> {
        if j is Bool {
            None
        } else {
            Some(DecodeError::NotABool)
        }
    }

    open spec fn holds(&self, j: Json) -> bool {
        j == Json::Bool(*self)
    }

    fn decode(v: &serde_json::Value) -> (r: Result<Self, DecodeError>) {
        match v.as_bool() {
            Some(b) => Ok(b),
            None => Err(DecodeError::NotABool),
        }
    }
}

impl Decode for u64 {
    open spec fn defect(j: Json) -> Option<DecodeError> {
        if j.as_u64() is Some {
            None
        } else {
            Some(DecodeError::NotAnInteger)
        }
    }

    open spec fn holds(&self, j: Json) -> bool {
        j.as_u64() == Some(*self)
    }

    fn decode(v: &serde_json::Value) -> (r: Result<Self, DecodeError>) {
        match v.as_u64() {
            Some(n) => Ok(n),
            None => Err(DecodeError::NotAnInteger),
        }
    }
}

impl Decode for usize {
    open spec fn defect(j: Json) -> Option<DecodeError> {
        match j.as_u64() {
            Some(n) => if n <= usize::MAX {
                None
            } else {
                Some(DecodeError::InvalidNumber)
            },
            None => Some(DecodeError::NotAnInteger),
        }
    }

    open spec fn holds(&self, j: Json) -> bool {
        j.as_u64() matches Some(n) && n == *self
    }

    fn decode(v: &serde_json::Value) -> (r: Result<Self, DecodeError>) {
        match v.as_u64() {
            Some(n) => if n <= usize::MAX as u64 {
                Ok(n as usize)
            } else {
                Err(DecodeError::InvalidNumber)
            },
            None => Err(DecodeError::NotAnInteger),
        }
    }
}

/// The defect of a required member: it is missing, or it has a defect of
/// its own.
pub open spec fn required_defect<T: Decode>(j: Json, key: &'static str) -> Option<DecodeError> {
    match j.field(key@) {
        Some(m) => T::defect(m),
        None => Some(DecodeError::MissingField(key)),
    }
}

/// Whether `x` is what the required member `key` of `j` decodes to.
pub open spec fn required_holds<T: Decode>(x: T, j: Json, key: &'static str) -> bool {
    j.field(key@) matches Some(m) && x.holds(m)
}

/// The defect of an optional member: none where it is missing or `null`,
/// else its own.
pub open spec fn optional_defect<T: Decode>(j: Json, key: &'static str) -> Option<DecodeError> {
    match j.field(key@) {
        Some(m) => T::defect(m),
        None => None,
    }
}

/// Whether `x` is what the optional member `key` of `j` decodes to.
pub open spec fn optional_holds<T: Decode>(x: Option<T>, j: Json, key: &'static str) -> bool {
    match j.field(key@) {
        Some(m) => x matches Some(y) && y.holds(m),
        None => x is None,
    }
}

/// The defect of the first item that has one.
pub open spec fn items_defect<T: Decode>(items: Seq<Json>) -> Option<DecodeError>
    decreases items.len(),
{
    if items.len() == 0 {
        None
    } else {
        first(items_defect::<T>(items.drop_last()), T::defect(items.last()))
    }
}

/// The defect of an array of `T`: it is no array, or one of its items has a
/// defect.
pub open spec fn array_defect<T: Decode>(j: Json) -> Option<DecodeError> {
    match j {
        Json::Array(items) => items_defect::<T>(items),
        _ => Some(DecodeError::NotAnArray),
    }
}

/// Whether `xs` holds, item by item and in order, what the array `j` decodes
/// to.
pub open spec fn array_holds<T: Decode>(xs: Seq<T>, j: Json) -> bool {
    &&& j matches Json::Array(items)
    &&& xs.len() == items.len()
    &&& forall|i: int| 0 <= i < xs.len() ==> (#[trigger] xs[i]).holds(items[i])
}

/// The defect of a required member that is an array of `T`.
pub open spec fn required_array_defect<T: Decode>(j: Json, key: &'static str) -> Option<
    DecodeError,
> {
    match j.field(key@) {
        Some(m) => array_defect::<T>(m),
        None => Some(DecodeError::MissingField(key)),
    }
}

/// Whether `xs` is what the required array member `key` of `j` decodes to.
pub open spec fn required_array_holds<T: Decode>(xs: Seq<T>, j: Json, key: &'static str) -> bool {
    j.field(key@) matches Some(m) && array_holds(xs, m)
}

/// The member `key` of `v` where it is there and not `null`.
pub fn get_value<'a>(v: &'a serde_json::Value, key: &str) -> (r: Option<&'a serde_json::Value>)
    ensures
        r is Some == json_of(*v).field(key@) is Some,
        r is Some ==> json_of(*r->0) == json_of(*v).field(key@)->0,
{
    match member(v, key) {
        Some(m) => if m.is_null() {
            None
        } else {
            Some(m)
        },
        None => None,
    }
}

/// Decodes the member `key`, which must be there.
pub fn required<T: Decode>(v: &serde_json::Value, key: &'static str) -> (r: Result<
    T,
    DecodeError,
>)
    ensures
        r is Ok == required_defect::<T>(json_of(*v), key) is None,
        r matches Ok(x) ==> required_holds(x, json_of(*v), key),
        r matches Err(e) ==> required_defect::<T>(json_of(*v), key) == Some(e),
{
    match get_value(v, key) {
        Some(m) => T::decode(m),
        None => Err(DecodeError::MissingField(key)),
    }
}

/// Decodes the member `key` where it is there.
pub fn optional<T: Decode>(v: &serde_json::Value, key: &'static str) -> (r: Result<
    Option<T>,
    DecodeError,
>)
    ensures
        r is Ok == optional_defect::<T>(json_of(*v), key) is None,
        r matches Ok(x) ==> optional_holds(x, json_of(*v), key),
        r matches Err(e) ==> optional_defect::<T>(json_of(*v), key) == Some(e),
{
    match get_value(v, key) {
        Some(m) => match T::decode(m) {
            Ok(x) => Ok(Some(x)),
            Err(e) => Err(e),
        },
        None => Ok(None),
    }
}

/// Decodes every item of an array, in order; the first item that fails
/// gives the error.
pub fn decode_array<T: Decode>(v: &serde_json::Value) -> (r: Result<Vec<T>, DecodeError>)
    ensures
        r is Ok == array_defect::<T>(json_of(*v)) is None,
        r matches Ok(xs) ==> array_holds(xs@, json_of(*v)),
        r matches Err(e) ==> array_defect::<T>(json_of(*v)) == Some(e),
{
    let items = match v.as_array() {
        Some(items) => items,
        None => {
            return Err(DecodeError::NotAnArray);
        },
    };
    let ghost models = json_of(*v).as_array()->0;
    let mut out: Vec<T> = Vec::new();
    let mut i: usize = 0;
    assert(models.take(0) =~= Seq::<Json>::empty());
    while i < items.len()
        invariant
            i <= items.len(),
            json_of(*v) == Json::Array(models),
            items@.len() == models.len(),
            forall|k: int| 0 <= k < items@.len() ==> json_of(#[trigger] items@[k]) == models[k],
            out@.len() == i,
            forall|k: int| 0 <= k < i ==> (#[trigger] out@[k]).holds(models[k]),
            items_defect::<T>(models.take(i as int)) is None,
        decreases items.len() - i,
    {
        proof {
            let t = models.take(i + 1);
            assert(t.drop_last() =~= models.take(i as int));
            assert(t.last() == models[i as int]);
        }
        match T::decode(&items[i]) {
            Ok(x) => {
                out.push(x);
            },
            Err(e) => {
                proof {
                    lemma_items_defect_prefix::<T>(models, i + 1);
                }
                return Err(e);
            },
        }
        i += 1;
    }
    assert(models.take(i as int) =~= models);
    Ok(out)
}

/// A defect among the first `k` items is the defect of the whole array.
pub proof fn lemma_items_defect_prefix<T: Decode>(items: Seq<Json>, k: int)
    requires
        0 <= k <= items.len(),
        items_defect::<T>(items.take(k)) is Some,
    ensures
        items_defect::<T>(items) == items_defect::<T>(items.take(k)),
    decreases items.len() - k,
{
    if k == items.len() {
        assert(items.take(k) =~= items);
    } else {
        let t = items.take(k + 1);
        assert(t.drop_last() =~= items.take(k));
        lemma_items_defect_prefix::<T>(items, k + 1);
    }
}

/// Decodes the member `key`, which must be there and be an array of `T`.
pub fn required_array<T: Decode>(v: &serde_json::Value, key: &'static str) -> (r: Result<
    Vec<T>,
    DecodeError,
>)
    ensures
        r is Ok == required_array_defect::<T>(json_of(*v), key) is None,
        r matches Ok(xs) ==> required_array_holds(xs@, json_of(*v), key),
        r matches Err(e) ==> required_array_defect::<T>(json_of(*v), key) == Some(e),
{
    match get_value(v, key) {
        Some(m) => decode_array(m),
        None => Err(DecodeError::MissingField(key)),
    }
}

} // verus!
