//! Enclave attribute value types.
//!
//! [`Attributes`] mirrors the native two-field attribute structure bit for
//! bit: a 64-bit `flags` word of capability and state bits and a 64-bit
//! `xfrm` word (the extended feature request mask) naming the processor
//! extended-state components the enclave may use.  The raw field pair is the
//! native representation; conversion in either direction is total and
//! lossless.

use vstd::prelude::*;

verus! {

/// Set when the enclave has been initialized.
pub const SGX_FLAGS_INITTED: u64 = 0x0000000000000001;

/// Set when the enclave is a debug enclave.
pub const SGX_FLAGS_DEBUG: u64 = 0x0000000000000002;

/// Set when the enclave runs in 64-bit mode.
pub const SGX_FLAGS_MODE64BIT: u64 = 0x0000000000000004;

/// Set when the enclave has access to the provisioning key.
pub const SGX_FLAGS_PROVISION_KEY: u64 = 0x0000000000000010;

/// Set when the enclave has access to the EINIT-token key.
pub const SGX_FLAGS_EINITTOKEN_KEY: u64 = 0x0000000000000020;

/// Set when the enclave uses key separation and sharing (KSS).
pub const SGX_FLAGS_KSS: u64 = 0x0000000000000080;

/// Bits 48 through 55 of the flags word, which are not checked.
pub const SGX_FLAGS_NON_CHECK_BITS: u64 = 0x00FF000000000000;

/// Legacy extended features: x87 state and SSE state.
pub const SGX_XFRM_LEGACY: u64 = 0x0000000000000003;

/// AVX extended features: AVX state and the SSE state AVX requires.
pub const SGX_XFRM_AVX: u64 = 0x0000000000000006;

/// AVX-512 extended features.
pub const SGX_XFRM_AVX512: u64 = 0x00000000000000E6;

/// MPX extended features.
pub const SGX_XFRM_MPX: u64 = 0x0000000000000018;

/// PKRU extended-feature state.
pub const SGX_XFRM_PKRU: u64 = 0x0000000000000200;

/// AMX extended features: XTILEDATA and XTILECFG state.
pub const SGX_XFRM_AMX: u64 = 0x0000000000060000;

/// Attributes of an enclave: the flags word and the extended feature
/// request mask, in the native field order.
///
/// Any 64-bit pattern is accepted in either field; no validation is applied.
/// Values are plain data: equality, hashing and copying are bitwise over the
/// two fields.
#[derive(Debug, Clone, Copy, Hash, PartialEq, Eq, Structural)]
pub struct Attributes {
    /// Boolean capability and state bits of the enclave.
    pub flags: u64,
    /// The extended feature request mask (xfrm).
    pub xfrm: u64,
}

impl Attributes {
    /// The attribute value a raw native field pair denotes.
    pub open spec fn spec_from_raw(flags: u64, xfrm: u64) -> Attributes {
        Attributes { flags, xfrm }
    }

    /// The raw native field pair of an attribute value, in declared order.
    pub open spec fn spec_to_raw(self) -> (u64, u64) {
        (self.flags, self.xfrm)
    }

    /// The value of `self` with its flags word replaced.
    pub open spec fn spec_set_flags(self, flags: u64) -> Attributes {
        Attributes { flags, xfrm: self.xfrm }
    }

    /// The value of `self` with its extended feature request mask replaced.
    pub open spec fn spec_set_extended_features_mask(self, features_mask: u64) -> Attributes {
        Attributes { flags: self.flags, xfrm: features_mask }
    }

    /// Build an attribute value from the raw native field pair.
    pub fn from_raw(flags: u64, xfrm: u64) -> (r: Attributes)
        ensures
            r == Attributes::spec_from_raw(flags, xfrm),
    {
        Attributes { flags, xfrm }
    }

    /// The raw native field pair `(flags, xfrm)` of this value.
    pub fn to_raw(&self) -> (r: (u64, u64))
        ensures
            r == self.spec_to_raw(),
    {
        (self.flags, self.xfrm)
    }

    /// Set the `flags` for the attributes, consuming and returning the value.
    pub fn set_flags(self, flags: u64) -> (r: Self)
        ensures
            r == self.spec_set_flags(flags),
    {
        Attributes { flags, xfrm: self.xfrm }
    }

    /// Set the extended features request mask (xfrm), consuming and
    /// returning the value.
    pub fn set_extended_features_mask(self, features_mask: u64) -> (r: Self)
        ensures
            r == self.spec_set_extended_features_mask(features_mask),
    {
        Attributes { flags: self.flags, xfrm: features_mask }
    }
}

impl Default for Attributes {
    /// The zeroed attribute value: no flags set, empty feature mask.
    fn default() -> (r: Self)
        ensures
            r == Attributes::spec_from_raw(0, 0),
    {
        Attributes { flags: 0, xfrm: 0 }
    }
}

/// Conversion between an attribute value and its raw native field pair is
/// lossless and total: every bit pattern of the two 64-bit fields
/// round-trips exactly, in both directions.
pub proof fn lemma_raw_round_trip(flags: u64, xfrm: u64, a: Attributes)
    ensures
        Attributes::spec_from_raw(flags, xfrm).spec_to_raw() == (flags, xfrm),
        Attributes::spec_from_raw(a.spec_to_raw().0, a.spec_to_raw().1) == a,
{
}

/// The two builder setters target disjoint fields, so their order is
/// irrelevant: setting the flags and then the extended features mask yields
/// the same value as the reverse order.
pub proof fn lemma_builder_order_irrelevant(a: Attributes, flags: u64, features_mask: u64)
    ensures
        a.spec_set_flags(flags).spec_set_extended_features_mask(features_mask)
            == a.spec_set_extended_features_mask(features_mask).spec_set_flags(flags),
{
}

/// The singleton sequence holding `name` when `cond` holds, and the empty
/// sequence otherwise: one conditional entry of the rendered flag list.
pub open spec fn name_if(cond: bool, name: Seq<char>) -> Seq<Seq<char>> {
    if cond {
        seq![name]
    } else {
        Seq::empty()
    }
}

/// The views of a list of string slices, element for element.
pub open spec fn views_of(names: Seq<&str>) -> Seq<Seq<char>> {
    names.map_values(|n: &str| n@)
}

/// The names of the named constants satisfied by an attribute value, in the
/// fixed declared order: each flags-word constant whose bits are all set in
/// the `flags` field, then each extended-feature constant whose bits are all
/// set in the `xfrm` field.
pub open spec fn spec_flag_names(a: Attributes) -> Seq<Seq<char>> {
    name_if(a.flags & SGX_FLAGS_INITTED == SGX_FLAGS_INITTED, "SGX_FLAGS_INITTED"@)
        + name_if(a.flags & SGX_FLAGS_DEBUG == SGX_FLAGS_DEBUG, "SGX_FLAGS_DEBUG"@)
        + name_if(a.flags & SGX_FLAGS_MODE64BIT == SGX_FLAGS_MODE64BIT, "SGX_FLAGS_MODE64BIT"@)
        + name_if(
        a.flags & SGX_FLAGS_PROVISION_KEY == SGX_FLAGS_PROVISION_KEY,
        "SGX_FLAGS_PROVISION_KEY"@,
    ) + name_if(
        a.flags & SGX_FLAGS_EINITTOKEN_KEY == SGX_FLAGS_EINITTOKEN_KEY,
        "SGX_FLAGS_EINITTOKEN_KEY"@,
    ) + name_if(a.flags & SGX_FLAGS_KSS == SGX_FLAGS_KSS, "SGX_FLAGS_KSS"@)
        + name_if(
        a.flags & SGX_FLAGS_NON_CHECK_BITS == SGX_FLAGS_NON_CHECK_BITS,
        "SGX_FLAGS_NON_CHECK_BITS"@,
    ) + name_if(a.xfrm & SGX_XFRM_LEGACY == SGX_XFRM_LEGACY, "SGX_XFRM_LEGACY"@)
        + name_if(a.xfrm & SGX_XFRM_AVX == SGX_XFRM_AVX, "SGX_XFRM_AVX"@)
        + name_if(a.xfrm & SGX_XFRM_AVX512 == SGX_XFRM_AVX512, "SGX_XFRM_AVX512"@)
        + name_if(a.xfrm & SGX_XFRM_MPX == SGX_XFRM_MPX, "SGX_XFRM_MPX"@)
        + name_if(a.xfrm & SGX_XFRM_PKRU == SGX_XFRM_PKRU, "SGX_XFRM_PKRU"@)
        + name_if(a.xfrm & SGX_XFRM_AMX == SGX_XFRM_AMX, "SGX_XFRM_AMX"@)
}

/// The names joined with a comma between neighbours and nothing else.
pub open spec fn spec_join_comma(names: Seq<Seq<char>>) -> Seq<char>
    decreases names.len(),
{
    if names.len() == 0 {
        Seq::empty()
    } else if names.len() == 1 {
        names[0]
    } else {
        spec_join_comma(names.drop_last()) + ","@ + names.last()
    }
}

/// The full rendering of an attribute value: the fixed label followed by
/// the comma-joined names of its satisfied constants.
pub open spec fn spec_display(a: Attributes) -> Seq<char> {
    "The following flags are set: "@ + spec_join_comma(spec_flag_names(a))
}

/// Append `name` to the list exactly when `cond` holds.
fn push_if(names: &mut Vec<&'static str>, cond: bool, name: &'static str)
    ensures
        views_of(final(names)@) == views_of(old(names)@) + name_if(cond, name@),
{
    if cond {
        names.push(name);
    }
    proof {
        assert(views_of(names@) =~= views_of(old(names)@) + name_if(cond, name@));
    }
}

/// Join the names with commas.
fn join_comma(names: &Vec<&'static str>) -> (r: String)
    ensures
        r@ == spec_join_comma(views_of(names@)),
{
    let mut s = String::new();
    let mut i: usize = 0;
    while i < names.len()
        invariant
            i <= names.len(),
            s@ == spec_join_comma(views_of(names@).take(i as int)),
        decreases names.len() - i,
    {
        if i > 0 {
            s.append(",");
        }
        s.append(names[i]);
        proof {
            let v = views_of(names@);
            let t = v.take(i as int + 1);
            assert(t.drop_last() =~= v.take(i as int));
            assert(t.last() == v[i as int]);
            if i == 0 {
                assert(s@ =~= t[0]);
            }
        }
        i = i + 1;
    }
    proof {
        assert(views_of(names@).take(names@.len() as int) =~= views_of(names@));
    }
    s
}

impl Attributes {
    /// The names of the named constants this value satisfies, in the fixed
    /// declared order.
    pub fn flag_names(&self) -> (names: Vec<&'static str>)
        ensures
            views_of(names@) == spec_flag_names(*self),
    {
        let mut names: Vec<&'static str> = Vec::new();
        push_if(
            &mut names,
            self.flags & SGX_FLAGS_INITTED == SGX_FLAGS_INITTED,
            "SGX_FLAGS_INITTED",
        );
        proof {
            assert(views_of(names@) =~= name_if(
                self.flags & SGX_FLAGS_INITTED == SGX_FLAGS_INITTED,
                "SGX_FLAGS_INITTED"@,
            ));
        }
        push_if(&mut names, self.flags & SGX_FLAGS_DEBUG == SGX_FLAGS_DEBUG, "SGX_FLAGS_DEBUG");
        push_if(
            &mut names,
            self.flags & SGX_FLAGS_MODE64BIT == SGX_FLAGS_MODE64BIT,
            "SGX_FLAGS_MODE64BIT",
        );
        push_if(
            &mut names,
            self.flags & SGX_FLAGS_PROVISION_KEY == SGX_FLAGS_PROVISION_KEY,
            "SGX_FLAGS_PROVISION_KEY",
        );
        push_if(
            &mut names,
            self.flags & SGX_FLAGS_EINITTOKEN_KEY == SGX_FLAGS_EINITTOKEN_KEY,
            "SGX_FLAGS_EINITTOKEN_KEY",
        );
        push_if(&mut names, self.flags & SGX_FLAGS_KSS == SGX_FLAGS_KSS, "SGX_FLAGS_KSS");
        push_if(
            &mut names,
            self.flags & SGX_FLAGS_NON_CHECK_BITS == SGX_FLAGS_NON_CHECK_BITS,
            "SGX_FLAGS_NON_CHECK_BITS",
        );
        push_if(&mut names, self.xfrm & SGX_XFRM_LEGACY == SGX_XFRM_LEGACY, "SGX_XFRM_LEGACY");
        push_if(&mut names, self.xfrm & SGX_XFRM_AVX == SGX_XFRM_AVX, "SGX_XFRM_AVX");
        push_if(&mut names, self.xfrm & SGX_XFRM_AVX512 == SGX_XFRM_AVX512, "SGX_XFRM_AVX512");
        push_if(&mut names, self.xfrm & SGX_XFRM_MPX == SGX_XFRM_MPX, "SGX_XFRM_MPX");
        push_if(&mut names, self.xfrm & SGX_XFRM_PKRU == SGX_XFRM_PKRU, "SGX_XFRM_PKRU");
        push_if(&mut names, self.xfrm & SGX_XFRM_AMX == SGX_XFRM_AMX, "SGX_XFRM_AMX");
        names
    }

    /// The human-readable rendering: the fixed label, then every named
    /// constant this value satisfies, comma-joined, in the fixed declared
    /// order.
    pub fn display_string(&self) -> (r: String)
        ensures
            r@ == spec_display(*self),
    {
        let names = self.flag_names();
        let joined = join_comma(&names);
        let mut s = String::from_str("The following flags are set: ");
        s.append(joined.as_str());
        s
    }
}

/// Miscellaneous select bits for a target enclave.  Reserved for future
/// extension; the 32-bit pattern is carried through uninterpreted.
#[derive(Debug, Clone, Copy, Hash, PartialEq, Eq, Structural)]
pub struct MiscellaneousSelect(pub u32);

impl Default for MiscellaneousSelect {
    /// The zeroed select value.
    fn default() -> (r: Self)
        ensures
            r == (MiscellaneousSelect(0)),
    {
        MiscellaneousSelect(0)
    }
}

impl From<u32> for MiscellaneousSelect {
    /// Wrap the native 32-bit select word.
    fn from(value: u32) -> (r: Self)
        ensures
            r == (MiscellaneousSelect(value)),
    {
        MiscellaneousSelect(value)
    }
}

impl vstd::std_specs::convert::FromSpecImpl<u32> for MiscellaneousSelect {
    open spec fn obeys_from_spec() -> bool {
        true
    }

    open spec fn from_spec(value: u32) -> Self {
        MiscellaneousSelect(value)
    }
}

impl From<MiscellaneousSelect> for u32 {
    /// Unwrap to the native 32-bit select word.
    fn from(value: MiscellaneousSelect) -> (r: u32)
        ensures
            r == value.0,
    {
        value.0
    }
}

impl vstd::std_specs::convert::FromSpecImpl<MiscellaneousSelect> for u32 {
    open spec fn obeys_from_spec() -> bool {
        true
    }

    open spec fn from_spec(value: MiscellaneousSelect) -> u32 {
        value.0
    }
}

/// Miscellaneous attributes and select bits for a target enclave, in the
/// native field order.
#[derive(Debug, Clone, Copy, Hash, PartialEq, Eq, Structural)]
pub struct MiscellaneousAttribute {
    /// The attributes of the enclave.
    pub secs_attr: Attributes,
    /// The miscellaneous select bits.
    pub misc_select: MiscellaneousSelect,
}

} // verus!
