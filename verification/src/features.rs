use vstd::prelude::*;
use vstd::string::*;

verus! {

/// The set of libdiscid features that a read may request.
///
/// Each feature is one bit, with the values of `enum discid_feature` in
/// libdiscid's `discid.h`: read (bit 0), MCN (bit 1), ISRC (bit 2).
/// No other bit is ever set.
#[derive(Clone, Copy, PartialEq, Eq, Structural, PartialOrd, Ord, Hash)]
pub struct Features {
    bits: u32,
}

/// The bit of the read feature (`DISCID_FEATURE_READ`).
pub open spec fn read_bit() -> u32 {
    1
}

/// The bit of the MCN feature (`DISCID_FEATURE_MCN`).
pub open spec fn mcn_bit() -> u32 {
    2
}

/// The bit of the ISRC feature (`DISCID_FEATURE_ISRC`).
pub open spec fn isrc_bit() -> u32 {
    4
}

/// The bits of all features together.
pub open spec fn all_bits() -> u32 {
    7
}

/// A value of the `u32` holds no bit beyond those of the features.
pub open spec fn known_bits(b: u32) -> bool {
    b & !all_bits() == 0
}

proof fn lemma_known_bits(b: u32)
    ensures
        known_bits(b) <==> b <= 7,
{
    assert(b & !7u32 == 0 <==> b <= 7) by (bit_vector);
}

proof fn lemma_ops_keep_known(a: u32, b: u32)
    requires
        a <= 7,
        b <= 7,
    ensures
        a | b <= 7,
        a & b <= 7,
        a & !b <= 7,
        a & 7 == a,
        a ^ b <= 7,
        !a & 7 <= 7,
{
    assert(a <= 7 && b <= 7 ==> a | b <= 7 && a & b <= 7 && a & !b <= 7 && a & 7 == a && a
        ^ b <= 7 && !a & 7 <= 7) by (bit_vector);
}

/// The names of the flags that a set shows in its debug form, in the order
/// they are declared: `READ`, `MCN`, `ISRC`, and `ALL` where all three are
/// in the set.
pub open spec fn flag_names(b: u32) -> Seq<Seq<char>> {
    (if b & read_bit() == read_bit() {
        seq!["READ"@]
    } else {
        seq![]
    }) + (if b & mcn_bit() == mcn_bit() {
        seq!["MCN"@]
    } else {
        seq![]
    }) + (if b & isrc_bit() == isrc_bit() {
        seq!["ISRC"@]
    } else {
        seq![]
    }) + (if b & all_bits() == all_bits() {
        seq!["ALL"@]
    } else {
        seq![]
    })
}

/// The names joined by ` | `.
pub open spec fn join_names(names: Seq<Seq<char>>) -> Seq<char>
    decreases names.len(),
{
    if names.len() == 0 {
        seq![]
    } else if names.len() == 1 {
        names[0]
    } else {
        join_names(names.drop_last()) + " | "@ + names.last()
    }
}

/// The debug form of a set with bits `b`: the names of its flags joined by
/// ` | `, or `(empty)` where it has none.
pub open spec fn debug_text(b: u32) -> Seq<char> {
    if flag_names(b).len() == 0 {
        "(empty)"@
    } else {
        join_names(flag_names(b))
    }
}

/// Appends `name` to the joined `names`.
fn append_name(s: &mut String, name: &str, first: bool, Ghost(names): Ghost<Seq<Seq<char>>>)
    requires
        old(s)@ == join_names(names),
        first <==> names.len() == 0,
    ensures
        final(s)@ == join_names(names.push(name@)),
{
    proof {
        assert(names.push(name@).drop_last() =~= names);
    }
    if first {
        assert(old(s)@ =~= seq![]);
        s.append(name);
        assert(final(s)@ =~= name@);
    } else {
        s.append(" | ");
        s.append(name);
    }
}

impl View for Features {
    type V = u32;

    closed spec fn view(&self) -> u32 {
        self.bits
    }
}

impl Features {
    #[verifier::type_invariant]
    spec fn known_bits_only(self) -> bool {
        self.bits <= all_bits()
    }

    /// The empty set: no feature.
    pub fn empty() -> (r: Features)
        ensures
            r@ == 0,
    {
        Features { bits: 0 }
    }

    /// Read the TOC of the disc (`DISCID_FEATURE_READ`; libdiscid always
    /// implies it).
    pub fn read() -> (r: Features)
        ensures
            r@ == read_bit(),
    {
        Features { bits: 1 }
    }

    /// Read the media catalogue number (`DISCID_FEATURE_MCN`).
    pub fn mcn() -> (r: Features)
        ensures
            r@ == mcn_bit(),
    {
        Features { bits: 2 }
    }

    /// Read the ISRC of each track (`DISCID_FEATURE_ISRC`).
    pub fn isrc() -> (r: Features)
        ensures
            r@ == isrc_bit(),
    {
        Features { bits: 4 }
    }

    /// All features: read, MCN and ISRC.
    pub fn all() -> (r: Features)
        ensures
            r@ == all_bits(),
    {
        Features { bits: 7 }
    }

    /// The raw bits, as libdiscid's `discid_read_sparse` takes them.
    pub fn bits(&self) -> (r: u32)
        ensures
            r == self@,
            known_bits(r),
    {
        proof {
            use_type_invariant(self);
            lemma_known_bits(self.bits);
        }
        self.bits
    }

    /// The set with exactly the given bits, or `None` where `bits` holds a
    /// bit that stands for no feature.
    pub fn from_bits(bits: u32) -> (r: Option<Features>)
        ensures
            r is Some <==> known_bits(bits),
            r matches Some(f) ==> f@ == bits,
    {
        proof {
            lemma_known_bits(bits);
        }
        if bits <= 7 {
            Some(Features { bits })
        } else {
            None
        }
    }

    /// The set of the features whose bits are set in `bits`; other bits are
    /// dropped.
    pub fn from_bits_truncate(bits: u32) -> (r: Features)
        ensures
            r@ == bits & all_bits(),
    {
        let b = bits & 7;
        assert(b <= 7) by (bit_vector)
            requires
                b == bits & 7,
        ;
        Features { bits: b }
    }

    /// No feature is in the set.
    pub fn is_empty(&self) -> (r: bool)
        ensures
            r == (self@ == 0),
    {
        self.bits == 0
    }

    /// Every feature is in the set.
    pub fn is_all(&self) -> (r: bool)
        ensures
            r == (self@ == all_bits()),
    {
        self.bits == 7
    }

    /// Every feature of `other` is in `self`.
    pub fn contains(&self, other: Features) -> (r: bool)
        ensures
            r == (self@ & other@ == other@),
    {
        self.bits & other.bits == other.bits
    }

    /// Some feature is in both sets.
    pub fn intersects(&self, other: Features) -> (r: bool)
        ensures
            r == (self@ & other@ != 0),
    {
        self.bits & other.bits != 0
    }

    /// The features that are in either set.
    pub fn union(self, other: Features) -> (r: Features)
        ensures
            r@ == self@ | other@,
    {
        proof {
            use_type_invariant(&self);
            use_type_invariant(&other);
            lemma_ops_keep_known(self.bits, other.bits);
        }
        Features { bits: self.bits | other.bits }
    }

    /// The features that are in both sets.
    pub fn intersection(self, other: Features) -> (r: Features)
        ensures
            r@ == self@ & other@,
    {
        proof {
            use_type_invariant(&self);
            use_type_invariant(&other);
            lemma_ops_keep_known(self.bits, other.bits);
        }
        Features { bits: self.bits & other.bits }
    }

    /// The features of `self` that are not in `other`.
    pub fn difference(self, other: Features) -> (r: Features)
        ensures
            r@ == self@ & !other@,
    {
        proof {
            use_type_invariant(&self);
            use_type_invariant(&other);
            lemma_ops_keep_known(self.bits, other.bits);
        }
        Features { bits: self.bits & !other.bits }
    }

    /// Adds the features of `other`.
    pub fn insert(&mut self, other: Features)
        ensures
            final(self)@ == old(self)@ | other@,
    {
        *self = self.union(other);
    }

    /// Removes the features of `other`.
    pub fn remove(&mut self, other: Features)
        ensures
            final(self)@ == old(self)@ & !other@,
    {
        *self = self.difference(other);
    }

    /// The features that are in exactly one of the sets.
    pub fn symmetric_difference(self, other: Features) -> (r: Features)
        ensures
            r@ == self@ ^ other@,
    {
        proof {
            use_type_invariant(&self);
            use_type_invariant(&other);
            lemma_ops_keep_known(self.bits, other.bits);
        }
        Features { bits: self.bits ^ other.bits }
    }

    /// The features that are not in the set.
    pub fn complement(self) -> (r: Features)
        ensures
            r@ == !self@ & all_bits(),
    {
        proof {
            use_type_invariant(&self);
            lemma_ops_keep_known(self.bits, self.bits);
        }
        Features { bits: !self.bits & 7 }
    }

    /// Adds the features of `other` that are not in the set, and removes
    /// those that are.
    pub fn toggle(&mut self, other: Features)
        ensures
            final(self)@ == old(self)@ ^ other@,
    {
        *self = self.symmetric_difference(other);
    }

    /// Adds the features of `other` where `value` holds, else removes them.
    pub fn set(&mut self, other: Features, value: bool)
        ensures
            value ==> final(self)@ == old(self)@ | other@,
            !value ==> final(self)@ == old(self)@ & !other@,
    {
        if value {
            self.insert(other);
        } else {
            self.remove(other);
        }
    }

    /// The debug form of the set, as bitflags writes it: the names of its
    /// flags joined by ` | ` (`READ | MCN`), or `(empty)`.
    pub fn debug_string(&self) -> (r: String)
        ensures
            r@ == debug_text(self@),
            self@ == 0 ==> r@ == "(empty)"@,
            self@ == 1 ==> r@ == "READ"@,
            self@ == 2 ==> r@ == "MCN"@,
            self@ == 3 ==> r@ == "READ"@ + " | "@ + "MCN"@,
            self@ == 4 ==> r@ == "ISRC"@,
            self@ == 5 ==> r@ == "READ"@ + " | "@ + "ISRC"@,
            self@ == 6 ==> r@ == "MCN"@ + " | "@ + "ISRC"@,
            self@ == 7 ==> r@ == "READ"@ + " | "@ + "MCN"@ + " | "@ + "ISRC"@ + " | "@ + "ALL"@,
    {
        proof {
            use_type_invariant(self);
            law_debug_text_names_each_flag(self.bits);
        }
        let b = self.bits;
        let mut s = String::new();
        let mut first = true;
        let ghost mut names: Seq<Seq<char>> = seq![];
        if b & 1 == 1 {
            append_name(&mut s, "READ", first, Ghost(names));
            proof {
                names = names.push("READ"@);
            }
            first = false;
        }
        if b & 2 == 2 {
            append_name(&mut s, "MCN", first, Ghost(names));
            proof {
                names = names.push("MCN"@);
            }
            first = false;
        }
        if b & 4 == 4 {
            append_name(&mut s, "ISRC", first, Ghost(names));
            proof {
                names = names.push("ISRC"@);
            }
            first = false;
        }
        if b & 7 == 7 {
            append_name(&mut s, "ALL", first, Ghost(names));
            proof {
                names = names.push("ALL"@);
            }
            first = false;
        }
        assert(names =~= flag_names(b));
        if first {
            s = String::from_str("(empty)");
        }
        s
    }
}

impl core::ops::BitOrAssign for Features {
    /// Adds the features of `other`, as `insert`.
    fn bitor_assign(&mut self, other: Features)
        ensures
            final(self)@ == old(self)@ | other@,
    {
        self.insert(other);
    }
}

impl core::ops::BitOr for Features {
    type Output = Features;

    /// The features that are in either set, as `union`.
    fn bitor(self, other: Features) -> (r: Features)
        ensures
            r@ == self@ | other@,
    {
        self.union(other)
    }
}

impl vstd::std_specs::ops::BitOrSpecImpl for Features {
    open spec fn obeys_bitor_spec() -> bool {
        true
    }

    open spec fn bitor_req(self, other: Features) -> bool {
        true
    }

    closed spec fn bitor_spec(self, other: Features) -> Features {
        Features { bits: self.bits | other.bits }
    }
}

impl core::ops::BitAnd for Features {
    type Output = Features;

    /// The features that are in both sets, as `intersection`.
    fn bitand(self, other: Features) -> (r: Features)
        ensures
            r@ == self@ & other@,
    {
        self.intersection(other)
    }
}

impl vstd::std_specs::ops::BitAndSpecImpl for Features {
    open spec fn obeys_bitand_spec() -> bool {
        true
    }

    open spec fn bitand_req(self, other: Features) -> bool {
        true
    }

    closed spec fn bitand_spec(self, other: Features) -> Features {
        Features { bits: self.bits & other.bits }
    }
}

impl core::ops::BitXor for Features {
    type Output = Features;

    /// The features that are in exactly one of the sets, as `symmetric_difference`.
    fn bitxor(self, other: Features) -> (r: Features)
        ensures
            r@ == self@ ^ other@,
    {
        self.symmetric_difference(other)
    }
}

impl vstd::std_specs::ops::BitXorSpecImpl for Features {
    open spec fn obeys_bitxor_spec() -> bool {
        true
    }

    open spec fn bitxor_req(self, other: Features) -> bool {
        true
    }

    closed spec fn bitxor_spec(self, other: Features) -> Features {
        Features { bits: self.bits ^ other.bits }
    }
}

impl core::ops::Sub for Features {
    type Output = Features;

    /// The features of `self` that are not in `other`, as `difference`.
    fn sub(self, other: Features) -> (r: Features)
        ensures
            r@ == self@ & !other@,
    {
        self.difference(other)
    }
}

impl vstd::std_specs::ops::SubSpecImpl for Features {
    open spec fn obeys_sub_spec() -> bool {
        true
    }

    open spec fn sub_req(self, other: Features) -> bool {
        true
    }

    closed spec fn sub_spec(self, other: Features) -> Features {
        Features { bits: self.bits & !other.bits }
    }
}

impl core::ops::Not for Features {
    type Output = Features;

    /// The features that are not in the set, as `complement`.
    fn not(self) -> (r: Features)
        ensures
            r@ == !self@ & all_bits(),
    {
        self.complement()
    }
}

impl vstd::std_specs::ops::NotSpecImpl for Features {
    open spec fn obeys_not_spec() -> bool {
        true
    }

    open spec fn not_req(self) -> bool {
        true
    }

    closed spec fn not_spec(self) -> Features {
        Features { bits: !self.bits & 7 }
    }
}

impl core::ops::BitAndAssign for Features {
    /// Keeps only the features that are also in `other`.
    fn bitand_assign(&mut self, other: Features)
        ensures
            final(self)@ == old(self)@ & other@,
    {
        *self = self.intersection(other);
    }
}

impl core::ops::BitXorAssign for Features {
    /// Toggles the features of `other`, as `toggle`.
    fn bitxor_assign(&mut self, other: Features)
        ensures
            final(self)@ == old(self)@ ^ other@,
    {
        self.toggle(other);
    }
}

impl core::ops::SubAssign for Features {
    /// Removes the features of `other`, as `remove`.
    fn sub_assign(&mut self, other: Features)
        ensures
            final(self)@ == old(self)@ & !other@,
    {
        self.remove(other);
    }
}

/// The debug form names each flag that is set and no other, in the order
/// `READ`, `MCN`, `ISRC` (and `ALL` where all three are set), joined by
/// ` | `; a set without flags shows `(empty)`. This is stated for every set,
/// value by value.
pub proof fn law_debug_text_names_each_flag(b: u32)
    requires
        b <= all_bits(),
    ensures
        b == 0 ==> debug_text(b) == "(empty)"@,
        b == 1 ==> debug_text(b) == "READ"@,
        b == 2 ==> debug_text(b) == "MCN"@,
        b == 3 ==> debug_text(b) == "READ"@ + " | "@ + "MCN"@,
        b == 4 ==> debug_text(b) == "ISRC"@,
        b == 5 ==> debug_text(b) == "READ"@ + " | "@ + "ISRC"@,
        b == 6 ==> debug_text(b) == "MCN"@ + " | "@ + "ISRC"@,
        b == 7 ==> debug_text(b) == "READ"@ + " | "@ + "MCN"@ + " | "@ + "ISRC"@ + " | "@
            + "ALL"@,
{
    reveal_with_fuel(join_names, 5);
    let r = "READ"@;
    let m = "MCN"@;
    let i = "ISRC"@;
    let a = "ALL"@;
    if b == 0 {
        assert(0u32 & 1u32 != 1u32 && 0u32 & 2u32 != 2u32 && 0u32 & 4u32 != 4u32 && 0u32 & 7u32
            != 7u32) by (bit_vector);
        assert(flag_names(b) =~= seq![]);
    } else if b == 1 {
        assert(1u32 & 1u32 == 1u32 && 1u32 & 2u32 != 2u32 && 1u32 & 4u32 != 4u32 && 1u32 & 7u32
            != 7u32) by (bit_vector);
        assert(flag_names(b) =~= seq![r]);
    } else if b == 2 {
        assert(2u32 & 1u32 != 1u32 && 2u32 & 2u32 == 2u32 && 2u32 & 4u32 != 4u32 && 2u32 & 7u32
            != 7u32) by (bit_vector);
        assert(flag_names(b) =~= seq![m]);
    } else if b == 3 {
        assert(3u32 & 1u32 == 1u32 && 3u32 & 2u32 == 2u32 && 3u32 & 4u32 != 4u32 && 3u32 & 7u32
            != 7u32) by (bit_vector);
        assert(flag_names(b) =~= seq![r, m]);
        assert(seq![r, m].drop_last() =~= seq![r]);
    } else if b == 4 {
        assert(4u32 & 1u32 != 1u32 && 4u32 & 2u32 != 2u32 && 4u32 & 4u32 == 4u32 && 4u32 & 7u32
            != 7u32) by (bit_vector);
        assert(flag_names(b) =~= seq![i]);
    } else if b == 5 {
        assert(5u32 & 1u32 == 1u32 && 5u32 & 2u32 != 2u32 && 5u32 & 4u32 == 4u32 && 5u32 & 7u32
            != 7u32) by (bit_vector);
        assert(flag_names(b) =~= seq![r, i]);
        assert(seq![r, i].drop_last() =~= seq![r]);
    } else if b == 6 {
        assert(6u32 & 1u32 != 1u32 && 6u32 & 2u32 == 2u32 && 6u32 & 4u32 == 4u32 && 6u32 & 7u32
            != 7u32) by (bit_vector);
        assert(flag_names(b) =~= seq![m, i]);
        assert(seq![m, i].drop_last() =~= seq![m]);
    } else {
        assert(7u32 & 1u32 == 1u32 && 7u32 & 2u32 == 2u32 && 7u32 & 4u32 == 4u32 && 7u32 & 7u32
            == 7u32) by (bit_vector);
        assert(flag_names(b) =~= seq![r, m, i, a]);
        assert(seq![r, m, i, a].drop_last() =~= seq![r, m, i]);
        assert(seq![r, m, i].drop_last() =~= seq![r, m]);
        assert(seq![r, m].drop_last() =~= seq![r]);
    }
}

/// Two sets with the same bits are the same set.
pub proof fn law_bits_determine_set(a: Features, b: Features)
    ensures
        a@ == b@ ==> a == b,
{
}

/// The three features together are all features: `read() | mcn() | isrc()`
/// is `all()`. With the contracts of `read`, `mcn`, `isrc`, `|` and `all`,
/// and `law_bits_determine_set`, the two values are equal.
pub proof fn law_all_is_every_feature(read: Features, mcn: Features, isrc: Features, all: Features)
    requires
        read@ == read_bit(),
        mcn@ == mcn_bit(),
        isrc@ == isrc_bit(),
        all@ == all_bits(),
    ensures
        (read@ | mcn@) | isrc@ == all@,
{
    assert((1u32 | 2u32) | 4u32 == 7u32) by (bit_vector);
}

/// Union is commutative, associative and idempotent, and the empty set is
/// its identity.
pub proof fn law_union_algebra(a: Features, b: Features, c: Features)
    ensures
        a@ | b@ == b@ | a@,
        (a@ | b@) | c@ == a@ | (b@ | c@),
        a@ | a@ == a@,
        a@ | 0u32 == a@,
{
    lemma_union_algebra(a@, b@, c@);
}

proof fn lemma_union_algebra(x: u32, y: u32, z: u32)
    ensures
        x | y == y | x,
        (x | y) | z == x | (y | z),
        x | x == x,
        x | 0u32 == x,
{
    assert(x | y == y | x) by (bit_vector);
    assert((x | y) | z == x | (y | z)) by (bit_vector);
    assert(x | x == x) by (bit_vector);
    assert(x | 0u32 == x) by (bit_vector);
}

/// A union contains both of its operands, so after `insert(other)` the set
/// contains `other`; after `remove(other)` it shares no feature with
/// `other`.
pub proof fn law_insert_remove(a: Features, b: Features)
    ensures
        (a@ | b@) & b@ == b@,
        (a@ | b@) & a@ == a@,
        (a@ & !b@) & b@ == 0,
{
    lemma_insert_remove(a@, b@);
}

proof fn lemma_insert_remove(x: u32, y: u32)
    ensures
        (x | y) & y == y,
        (x | y) & x == x,
        (x & !y) & y == 0,
{
    assert((x | y) & y == y) by (bit_vector);
    assert((x | y) & x == x) by (bit_vector);
    assert((x & !y) & y == 0) by (bit_vector);
}

/// Every set is contained in `all()`, and the bits of a set are kept by
/// `from_bits` and by `from_bits_truncate`.
pub proof fn law_bits_round_trip(f: Features)
    requires
        known_bits(f@),
    ensures
        all_bits() & f@ == f@,
        f@ & all_bits() == f@,
{
    lemma_known_bits(f@);
    lemma_ops_keep_known(f@, f@);
    let x = f@;
    assert(x <= 7 ==> 7u32 & x == x) by (bit_vector);
}

} // verus!
