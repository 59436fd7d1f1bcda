//! VM-level identifiers — module identifiers and typed resource tags — and
//! their deterministic derivation into legacy-form storage keys.
//!
//! The derived path is the canonical binary encoding of the identifier,
//! prefixed by a tag byte that separates the code and resource namespaces:
//! fixed-width address bytes are written as they are, byte strings are
//! length-prefixed, and enum variants and lengths are written as
//! little-endian base-128 varints.

use vstd::prelude::*;

use crate::access_path::{AccessPath, AccessPathData};
use crate::account_address::AccountAddress;

verus! {

/// The first byte of every derived module (code) path.
pub const CODE_TAG: u8 = 0;

/// The first byte of every derived resource path.
pub const RESOURCE_TAG: u8 = 1;

/// Whether `b` is an ASCII letter.
pub open spec fn is_letter(b: u8) -> bool {
    (65 <= b <= 90) || (97 <= b <= 122)
}

/// Whether `b` may appear in an identifier after the first byte: a letter,
/// a digit, or an underscore.
pub open spec fn is_identifier_tail(b: u8) -> bool {
    is_letter(b) || (48 <= b <= 57) || b == 95
}

/// Whether `s` is a well-formed identifier: nonempty, starting with a
/// letter or underscore, continuing with letters, digits or underscores.
pub open spec fn is_valid_identifier(s: Seq<u8>) -> bool {
    &&& s.len() > 0
    &&& (is_letter(s[0]) || s[0] == 95)
    &&& forall|i: int| 1 <= i < s.len() ==> is_identifier_tail(#[trigger] s[i])
}

/// The reason a byte string is rejected as an identifier.
#[derive(Clone, Copy, Debug, Eq, PartialEq, Structural)]
pub struct InvalidIdentifier {}

/// The name of a module or of a struct: a well-formed identifier in ASCII
/// bytes.
#[derive(Debug, Eq, Hash, PartialEq)]
pub struct Identifier {
    name: Vec<u8>,
}

impl View for Identifier {
    type V = Seq<u8>;

    closed spec fn view(&self) -> Seq<u8> {
        self.name@
    }
}

impl Identifier {
    #[verifier::type_invariant]
    spec fn inv(self) -> bool {
        is_valid_identifier(self.name@)
    }

    /// Accepts a well-formed identifier and rejects anything else.
    pub fn new(name: Vec<u8>) -> (r: Result<Self, InvalidIdentifier>)
        ensures
            r is Ok <==> is_valid_identifier(name@),
            r matches Ok(id) ==> id@ == name@,
    {
        if name.len() == 0 {
            return Err(InvalidIdentifier {});
        }
        let head = name[0];
        if !((65 <= head && head <= 90) || (97 <= head && head <= 122) || head == 95) {
            return Err(InvalidIdentifier {});
        }
        let n: usize = name.len();
        let mut i: usize = 1;
        while i < n
            invariant
                1 <= i <= n,
                n == name@.len(),
                forall|j: int| 1 <= j < i ==> is_identifier_tail(#[trigger] name@[j]),
            decreases n - i,
        {
            let b = name[i];
            if !((65 <= b && b <= 90) || (97 <= b && b <= 122) || (48 <= b && b <= 57) || b == 95)
            {
                return Err(InvalidIdentifier {});
            }
            i += 1;
        }
        Ok(Identifier { name })
    }

    /// The identifier's bytes.
    pub fn as_bytes(&self) -> (r: &Vec<u8>)
        ensures
            r@ == self@,
    {
        &self.name
    }

    /// Every held identifier is well-formed.
    pub fn check_valid(&self) -> (r: bool)
        ensures
            r,
            is_valid_identifier(self@),
    {
        proof {
            use_type_invariant(self);
        }
        true
    }

    /// A fresh copy of the identifier.
    pub fn duplicate(&self) -> (r: Identifier)
        ensures
            r@ == self@,
    {
        proof {
            use_type_invariant(self);
        }
        Identifier { name: crate::bytes::copy_bytes(&self.name) }
    }
}

/// The identity of a published module: the account that holds it and its
/// name.
#[derive(Debug, Eq, Hash, PartialEq)]
pub struct ModuleId {
    /// The account the module is published under.
    pub address: AccountAddress,
    /// The module's name.
    pub name: Identifier,
}

/// The runtime type of a value, as it appears among a resource tag's type
/// arguments.
#[derive(Debug)]
pub enum TypeTag {
    /// The boolean type.
    Bool,
    /// The 8-bit unsigned integer type.
    U8,
    /// The 64-bit unsigned integer type.
    U64,
    /// The 128-bit unsigned integer type.
    U128,
    /// The account address type.
    Address,
    /// The signer capability type.
    Signer,
    /// A vector of some element type.
    Vector(Box<TypeTag>),
    /// A struct type, fully instantiated.
    Struct(Box<StructTag>),
}

/// The identity of a resource type: the module that declares it, its name,
/// and its type arguments.
#[derive(Debug)]
pub struct StructTag {
    /// The account the declaring module is published under.
    pub address: AccountAddress,
    /// The declaring module's name.
    pub module: Identifier,
    /// The struct's name.
    pub name: Identifier,
    /// The type arguments the struct is instantiated with.
    pub type_args: Vec<TypeTag>,
}

/// The little-endian base-128 varint encoding of `n`: seven bits per byte,
/// least significant first, the high bit marking continuation.
pub open spec fn uleb_bytes(n: nat) -> Seq<u8>
    decreases n,
{
    if n < 128 {
        seq![n as u8]
    } else {
        seq![(n % 128 + 128) as u8] + uleb_bytes(n / 128)
    }
}

/// The encoding of an identifier: its length as a varint, then its bytes.
pub open spec fn identifier_bytes(id: Identifier) -> Seq<u8> {
    uleb_bytes(id@.len()) + id@
}

/// The encoding of a module identifier: address bytes, then name.
pub open spec fn module_id_bytes(m: ModuleId) -> Seq<u8> {
    m.address@ + identifier_bytes(m.name)
}

/// The variant index a type tag encodes as.
pub open spec fn type_tag_index(t: TypeTag) -> nat {
    match t {
        TypeTag::Bool => 0,
        TypeTag::U8 => 1,
        TypeTag::U64 => 2,
        TypeTag::U128 => 3,
        TypeTag::Address => 4,
        TypeTag::Signer => 5,
        TypeTag::Vector(_) => 6,
        TypeTag::Struct(_) => 7,
    }
}

/// The encoding of a type tag: its variant index as a varint, then its
/// payload, if any.
pub open spec fn type_tag_bytes(t: TypeTag) -> Seq<u8>
    decreases t,
{
    match t {
        TypeTag::Vector(elem) => uleb_bytes(6) + type_tag_bytes(*elem),
        TypeTag::Struct(tag) => uleb_bytes(7) + struct_tag_bytes(*tag),
        _ => uleb_bytes(type_tag_index(t)),
    }
}

/// The encoding of a list of type tags: its length as a varint, then each
/// tag in order.
pub open spec fn type_args_bytes(s: Seq<TypeTag>) -> Seq<u8>
    decreases s,
{
    if s.len() == 0 {
        Seq::<u8>::empty()
    } else {
        type_args_bytes(s.drop_last()) + type_tag_bytes(s.last())
    }
}

/// The encoding of a resource tag: address bytes, module name, struct
/// name, then the type arguments behind their count.
pub open spec fn struct_tag_bytes(st: StructTag) -> Seq<u8>
    decreases st,
{
    st.address@ + identifier_bytes(st.module) + identifier_bytes(st.name) + uleb_bytes(
        st.type_args@.len(),
    ) + type_args_bytes(st.type_args@)
}

/// The derived path of a module: the code tag byte, then the module
/// identifier's encoding.
pub open spec fn code_path(m: ModuleId) -> Seq<u8> {
    seq![CODE_TAG] + module_id_bytes(m)
}

/// The derived path of a resource: the resource tag byte, then the
/// resource tag's encoding.
pub open spec fn resource_path(st: StructTag) -> Seq<u8> {
    seq![RESOURCE_TAG] + struct_tag_bytes(st)
}

/// The legacy-form key a module identifier derives to.
pub open spec fn module_key(m: ModuleId) -> AccessPathData {
    AccessPathData { address: m.address@, path: code_path(m) }
}

/// The legacy-form key a resource at `address` with tag `st` derives to.
pub open spec fn resource_key(address: AccountAddress, st: StructTag) -> AccessPathData {
    AccessPathData { address: address@, path: resource_path(st) }
}

/// Appends the varint encoding of `n`.
fn encode_uleb128(n: u64, out: &mut Vec<u8>)
    ensures
        final(out)@ == old(out)@ + uleb_bytes(n as nat),
{
    let ghost start = out@;
    let ghost n0 = n as nat;
    let mut rest = n;
    while rest >= 128
        invariant
            start + uleb_bytes(n0) == out@ + uleb_bytes(rest as nat),
        decreases rest,
    {
        let ghost before = out@;
        out.push((rest % 128 + 128) as u8);
        assert(out@ =~= before + seq![(rest % 128 + 128) as u8]);
        assert(before + uleb_bytes(rest as nat) =~= out@ + uleb_bytes((rest / 128) as nat));
        rest = rest / 128;
    }
    let ghost before = out@;
    out.push(rest as u8);
    assert(out@ =~= before + seq![rest as u8]);
    assert(out@ =~= start + uleb_bytes(n0));
}

/// Appends the encoding of an identifier.
fn encode_identifier(id: &Identifier, out: &mut Vec<u8>)
    ensures
        final(out)@ == old(out)@ + identifier_bytes(*id),
{
    let bytes = id.as_bytes();
    encode_uleb128(bytes.len() as u64, out);
    let n: usize = bytes.len();
    let ghost mid = out@;
    let mut i: usize = 0;
    while i < n
        invariant
            0 <= i <= n,
            n == bytes@.len(),
            bytes@ == id@,
            out@ == mid + bytes@.subrange(0, i as int),
        decreases n - i,
    {
        out.push(bytes[i]);
        assert(out@ =~= mid + bytes@.subrange(0, i + 1));
        i += 1;
    }
    assert(bytes@.subrange(0, n as int) =~= bytes@);
    assert(out@ =~= old(out)@ + identifier_bytes(*id));
}

/// Appends the 32 address bytes.
fn encode_address(address: &AccountAddress, out: &mut Vec<u8>)
    ensures
        final(out)@ == old(out)@ + address@,
{
    let bytes = address.to_bytes();
    let ghost start = out@;
    let mut i: usize = 0;
    while i < 32
        invariant
            0 <= i <= 32,
            bytes@ == address@,
            out@ == start + bytes@.subrange(0, i as int),
        decreases 32 - i,
    {
        out.push(bytes[i]);
        assert(out@ =~= start + bytes@.subrange(0, i + 1));
        i += 1;
    }
    assert(bytes@.subrange(0, 32) =~= bytes@);
}

/// Appends the encoding of a type tag.
fn encode_type_tag(t: &TypeTag, out: &mut Vec<u8>)
    ensures
        final(out)@ == old(out)@ + type_tag_bytes(*t),
    decreases *t,
{
    match t {
        TypeTag::Bool => encode_uleb128(0, out),
        TypeTag::U8 => encode_uleb128(1, out),
        TypeTag::U64 => encode_uleb128(2, out),
        TypeTag::U128 => encode_uleb128(3, out),
        TypeTag::Address => encode_uleb128(4, out),
        TypeTag::Signer => encode_uleb128(5, out),
        TypeTag::Vector(elem) => {
            encode_uleb128(6, out);
            encode_type_tag(elem, out);
            assert(out@ =~= old(out)@ + type_tag_bytes(*t));
        },
        TypeTag::Struct(tag) => {
            encode_uleb128(7, out);
            encode_struct_tag(tag, out);
            assert(out@ =~= old(out)@ + type_tag_bytes(*t));
        },
    }
}

/// Appends the encoding of a resource tag.
fn encode_struct_tag(st: &StructTag, out: &mut Vec<u8>)
    ensures
        final(out)@ == old(out)@ + struct_tag_bytes(*st),
    decreases *st,
{
    encode_address(&st.address, out);
    encode_identifier(&st.module, out);
    encode_identifier(&st.name, out);
    encode_uleb128(st.type_args.len() as u64, out);
    let n: usize = st.type_args.len();
    let ghost mid = out@;
    let mut i: usize = 0;
    while i < n
        invariant
            0 <= i <= n,
            n == st.type_args@.len(),
            out@ == mid + type_args_bytes(st.type_args@.subrange(0, i as int)),
        decreases n - i,
    {
        proof {
            assert(decreases_to!(*st => st.type_args));
            assert(decreases_to!(st.type_args => st.type_args@));
            assert(decreases_to!(st.type_args@ => st.type_args@[i as int]));
        }
        encode_type_tag(&st.type_args[i], out);
        proof {
            let taken = st.type_args@.subrange(0, i + 1);
            assert(taken.drop_last() =~= st.type_args@.subrange(0, i as int));
            assert(taken.last() == st.type_args@[i as int]);
        }
        i += 1;
    }
    proof {
        assert(st.type_args@.subrange(0, n as int) =~= st.type_args@);
        assert(out@ =~= old(out)@ + struct_tag_bytes(*st));
    }
}

impl ModuleId {
    /// The derived path of the module: the code tag byte, then the module
    /// identifier's encoding.
    pub fn access_vector(&self) -> (r: Vec<u8>)
        ensures
            r@ == code_path(*self),
    {
        let mut out: Vec<u8> = Vec::new();
        out.push(CODE_TAG);
        assert(out@ =~= seq![CODE_TAG]);
        encode_address(&self.address, &mut out);
        encode_identifier(&self.name, &mut out);
        assert(out@ =~= code_path(*self));
        out
    }
}

impl StructTag {
    /// The derived path of a resource with this tag: the resource tag
    /// byte, then the tag's encoding.
    pub fn access_vector(&self) -> (r: Vec<u8>)
        ensures
            r@ == resource_path(*self),
    {
        let mut out: Vec<u8> = Vec::new();
        out.push(RESOURCE_TAG);
        assert(out@ =~= seq![RESOURCE_TAG]);
        encode_struct_tag(self, &mut out);
        assert(out@ =~= resource_path(*self));
        out
    }
}

/// The legacy-form key a module is stored under.
pub fn module_access_path(module_id: &ModuleId) -> (r: AccessPath)
    ensures
        r@ == module_key(*module_id),
{
    let r = AccessPath { address: module_id.address, path: module_id.access_vector() };
    assert(r@ =~= module_key(*module_id));
    r
}

/// The legacy-form key a resource of type `tag` under `address` is stored
/// under.
pub fn create_access_path(address: AccountAddress, tag: &StructTag) -> (r: AccessPath)
    ensures
        r@ == resource_key(address, *tag),
{
    let r = AccessPath { address, path: tag.access_vector() };
    assert(r@ =~= resource_key(address, *tag));
    r
}

} // verus!
