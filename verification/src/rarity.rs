//! The rarity taxonomy: a closed, totally ordered set of ten tiers,
//! with a canonical string form over all ten and a numeric form over
//! the six first-position tiers only.

use vstd::prelude::*;
use vstd::string::StrSliceExecFns;
use vstd::string::StringExecFns;

verus! {

/// A scarcity tier for a single indivisible unit of the currency.
///
/// The first six tiers label units that open a block's reward
/// (`Common` is the fallback for every undistinguished unit); the four
/// black tiers label units that close one. Declaration order is the
/// tiers' total order, from least to most scarce within each group.
#[derive(Debug, Clone, Copy, PartialEq, Eq, Structural)]
pub enum Rarity {
    Common,
    Uncommon,
    Rare,
    Epic,
    Legendary,
    Mythic,
    BlackUncommon,
    BlackRare,
    BlackEpic,
    BlackLegendary,
}

/// The canonical snake-case name of a tier.
pub open spec fn spec_name(r: Rarity) -> Seq<char> {
    match r {
        Rarity::Common => "common"@,
        Rarity::Uncommon => "uncommon"@,
        Rarity::Rare => "rare"@,
        Rarity::Epic => "epic"@,
        Rarity::Legendary => "legendary"@,
        Rarity::Mythic => "mythic"@,
        Rarity::BlackUncommon => "black_uncommon"@,
        Rarity::BlackRare => "black_rare"@,
        Rarity::BlackEpic => "black_epic"@,
        Rarity::BlackLegendary => "black_legendary"@,
    }
}

/// Which tier, if any, a string names: exactly the ten canonical names
/// are accepted.
pub open spec fn spec_parse(s: Seq<char>) -> Option<Rarity> {
    if s == "common"@ {
        Some(Rarity::Common)
    } else if s == "uncommon"@ {
        Some(Rarity::Uncommon)
    } else if s == "rare"@ {
        Some(Rarity::Rare)
    } else if s == "epic"@ {
        Some(Rarity::Epic)
    } else if s == "legendary"@ {
        Some(Rarity::Legendary)
    } else if s == "mythic"@ {
        Some(Rarity::Mythic)
    } else if s == "black_uncommon"@ {
        Some(Rarity::BlackUncommon)
    } else if s == "black_rare"@ {
        Some(Rarity::BlackRare)
    } else if s == "black_epic"@ {
        Some(Rarity::BlackEpic)
    } else if s == "black_legendary"@ {
        Some(Rarity::BlackLegendary)
    } else {
        None
    }
}

/// The numeric code of a tier. The encoding is deliberately partial:
/// it is defined for the six first-position tiers only, in declaration
/// order, and the four black tiers have no numeric form.
pub open spec fn spec_small_int(r: Rarity) -> Option<u8> {
    match r {
        Rarity::Common => Some(0u8),
        Rarity::Uncommon => Some(1u8),
        Rarity::Rare => Some(2u8),
        Rarity::Epic => Some(3u8),
        Rarity::Legendary => Some(4u8),
        Rarity::Mythic => Some(5u8),
        Rarity::BlackUncommon => None,
        Rarity::BlackRare => None,
        Rarity::BlackEpic => None,
        Rarity::BlackLegendary => None,
    }
}

/// Which tier a numeric code names; every code above five names none
/// and is handed back as the failure payload.
pub open spec fn spec_from_small_int(n: u8) -> Result<Rarity, u8> {
    if n == 0 {
        Ok(Rarity::Common)
    } else if n == 1 {
        Ok(Rarity::Uncommon)
    } else if n == 2 {
        Ok(Rarity::Rare)
    } else if n == 3 {
        Ok(Rarity::Epic)
    } else if n == 4 {
        Ok(Rarity::Legendary)
    } else if n == 5 {
        Ok(Rarity::Mythic)
    } else {
        Err(n)
    }
}

/// The rank of a tier in the total order, which is declaration order:
/// `Common` lowest, `BlackLegendary` highest.
pub open spec fn spec_rank(r: Rarity) -> u8 {
    match r {
        Rarity::Common => 0u8,
        Rarity::Uncommon => 1u8,
        Rarity::Rare => 2u8,
        Rarity::Epic => 3u8,
        Rarity::Legendary => 4u8,
        Rarity::Mythic => 5u8,
        Rarity::BlackUncommon => 6u8,
        Rarity::BlackRare => 7u8,
        Rarity::BlackEpic => 8u8,
        Rarity::BlackLegendary => 9u8,
    }
}

/// Rejected input of [`Rarity::parse`]: a string that names no tier.
/// Carries the offending text verbatim.
#[derive(Debug)]
pub struct InvalidRarity {
    pub input: String,
}

impl InvalidRarity {
    /// The diagnostic message: the offending text surrounded by backticks.
    pub fn message(&self) -> (m: String)
        ensures
            m@ == "invalid rarity `"@ + self.input@ + "`"@,
    {
        let mut m = String::from_str("invalid rarity `");
        m.append(self.input.as_str());
        m.append("`");
        m
    }
}

/// Character-by-character string comparison, so that equality with each
/// canonical name is established against the string views.
fn str_eq(a: &str, b: &str) -> (r: bool)
    ensures
        r == (a@ == b@),
{
    let a_len = a.unicode_len();
    let b_len = b.unicode_len();
    if a_len != b_len {
        return false;
    }
    let mut i: usize = 0;
    while i < a_len
        invariant
            a_len == a@.len(),
            b_len == b@.len(),
            a_len == b_len,
            i <= a_len,
            forall|j: int| 0 <= j < i ==> a@[j] == b@[j],
        decreases a_len - i,
    {
        if a.get_char(i) != b.get_char(i) {
            return false;
        }
        i = i + 1;
    }
    proof {
        assert(a@ =~= b@);
    }
    true
}

impl Rarity {
    /// The canonical snake-case name of this tier; the single source of
    /// truth for the human- and interchange-visible form.
    pub fn name(&self) -> (r: &'static str)
        ensures
            r@ == spec_name(*self),
    {
        match self {
            Rarity::Common => "common",
            Rarity::Uncommon => "uncommon",
            Rarity::Rare => "rare",
            Rarity::Epic => "epic",
            Rarity::Legendary => "legendary",
            Rarity::Mythic => "mythic",
            Rarity::BlackUncommon => "black_uncommon",
            Rarity::BlackRare => "black_rare",
            Rarity::BlackEpic => "black_epic",
            Rarity::BlackLegendary => "black_legendary",
        }
    }

    /// Parse a canonical tier name. Succeeds on exactly the ten
    /// canonical names; any other input is returned verbatim inside
    /// [`InvalidRarity`].
    pub fn parse(s: &str) -> (r: Result<Rarity, InvalidRarity>)
        ensures
            match spec_parse(s@) {
                Some(t) => r == Ok::<Rarity, InvalidRarity>(t),
                None => r matches Err(e) && e.input@ == s@,
            },
    {
        if str_eq(s, "common") {
            Ok(Rarity::Common)
        } else if str_eq(s, "uncommon") {
            Ok(Rarity::Uncommon)
        } else if str_eq(s, "rare") {
            Ok(Rarity::Rare)
        } else if str_eq(s, "epic") {
            Ok(Rarity::Epic)
        } else if str_eq(s, "legendary") {
            Ok(Rarity::Legendary)
        } else if str_eq(s, "mythic") {
            Ok(Rarity::Mythic)
        } else if str_eq(s, "black_uncommon") {
            Ok(Rarity::BlackUncommon)
        } else if str_eq(s, "black_rare") {
            Ok(Rarity::BlackRare)
        } else if str_eq(s, "black_epic") {
            Ok(Rarity::BlackEpic)
        } else if str_eq(s, "black_legendary") {
            Ok(Rarity::BlackLegendary)
        } else {
            Err(InvalidRarity { input: s.to_owned() })
        }
    }

    /// The numeric code of this tier, or `None` for the four black
    /// tiers, which have no numeric representation.
    pub fn to_small_int(&self) -> (r: Option<u8>)
        ensures
            r == spec_small_int(*self),
            r is None <==> (*self == Rarity::BlackUncommon || *self == Rarity::BlackRare
                || *self == Rarity::BlackEpic || *self == Rarity::BlackLegendary),
    {
        match self {
            Rarity::Common => Some(0),
            Rarity::Uncommon => Some(1),
            Rarity::Rare => Some(2),
            Rarity::Epic => Some(3),
            Rarity::Legendary => Some(4),
            Rarity::Mythic => Some(5),
            Rarity::BlackUncommon => None,
            Rarity::BlackRare => None,
            Rarity::BlackEpic => None,
            Rarity::BlackLegendary => None,
        }
    }

    /// Decode a numeric code. Succeeds on exactly the codes zero
    /// through five; every other code comes back verbatim as the
    /// failure payload.
    pub fn from_small_int(n: u8) -> (r: Result<Rarity, u8>)
        ensures
            r == spec_from_small_int(n),
            n > 5 ==> r == Err::<Rarity, u8>(n),
            n <= 5 ==> (r matches Ok(t) && spec_small_int(t) == Some(n)),
    {
        match n {
            0 => Ok(Rarity::Common),
            1 => Ok(Rarity::Uncommon),
            2 => Ok(Rarity::Rare),
            3 => Ok(Rarity::Epic),
            4 => Ok(Rarity::Legendary),
            5 => Ok(Rarity::Mythic),
            _ => Err(n),
        }
    }

    /// The rank of this tier in the total order (declaration order).
    pub fn rank(&self) -> (n: u8)
        ensures
            n == spec_rank(*self),
    {
        match self {
            Rarity::Common => 0,
            Rarity::Uncommon => 1,
            Rarity::Rare => 2,
            Rarity::Epic => 3,
            Rarity::Legendary => 4,
            Rarity::Mythic => 5,
            Rarity::BlackUncommon => 6,
            Rarity::BlackRare => 7,
            Rarity::BlackEpic => 8,
            Rarity::BlackLegendary => 9,
        }
    }
}

impl PartialOrd for Rarity {
    fn partial_cmp(&self, other: &Rarity) -> (r: Option<core::cmp::Ordering>) {
        let a = self.rank();
        let b = other.rank();
        if a < b {
            Some(core::cmp::Ordering::Less)
        } else if a == b {
            Some(core::cmp::Ordering::Equal)
        } else {
            Some(core::cmp::Ordering::Greater)
        }
    }
}

impl vstd::std_specs::cmp::PartialOrdSpecImpl for Rarity {
    open spec fn obeys_partial_cmp_spec() -> bool {
        true
    }

    open spec fn partial_cmp_spec(&self, other: &Rarity) -> Option<core::cmp::Ordering> {
        if spec_rank(*self) < spec_rank(*other) {
            Some(core::cmp::Ordering::Less)
        } else if spec_rank(*self) == spec_rank(*other) {
            Some(core::cmp::Ordering::Equal)
        } else {
            Some(core::cmp::Ordering::Greater)
        }
    }
}

impl core::str::FromStr for Rarity {
    type Err = String;

    /// Parse a canonical tier name, reporting failure as the finished
    /// diagnostic message.
    fn from_str(s: &str) -> (r: Result<Rarity, String>)
        ensures
            match spec_parse(s@) {
                Some(t) => r == Ok::<Rarity, String>(t),
                None => r matches Err(m) && m@ == "invalid rarity `"@ + s@ + "`"@,
            },
    {
        match Rarity::parse(s) {
            Ok(r) => Ok(r),
            Err(e) => Err(e.message()),
        }
    }
}

/// Parsing a tier's canonical name yields that tier back: the string
/// form is a bijection between the ten tiers and their names.
pub proof fn lemma_name_round_trip(r: Rarity)
    ensures
        spec_parse(spec_name(r)) == Some(r),
{
    reveal_strlit("common");
    reveal_strlit("uncommon");
    reveal_strlit("rare");
    reveal_strlit("epic");
    reveal_strlit("legendary");
    reveal_strlit("mythic");
    reveal_strlit("black_uncommon");
    reveal_strlit("black_rare");
    reveal_strlit("black_epic");
    reveal_strlit("black_legendary");
    assert("common"@.len() == 6);
    assert("uncommon"@.len() == 8);
    assert("rare"@.len() == 4);
    assert("epic"@.len() == 4);
    assert("legendary"@.len() == 9);
    assert("mythic"@.len() == 6);
    assert("black_uncommon"@.len() == 14);
    assert("black_rare"@.len() == 10);
    assert("black_epic"@.len() == 10);
    assert("black_legendary"@.len() == 15);
    assert("epic"@[0] != "rare"@[0]);
    assert("mythic"@[0] != "common"@[0]);
    assert("black_epic"@[6] != "black_rare"@[6]);
}

/// Decoding a first-position tier's numeric code yields that tier back,
/// and exactly the four black tiers have no numeric code.
pub proof fn lemma_small_int_round_trip(r: Rarity)
    ensures
        spec_small_int(r) matches Some(n) ==> spec_from_small_int(n) == Ok::<Rarity, u8>(r),
        spec_small_int(r) is None <==> (r == Rarity::BlackUncommon || r == Rarity::BlackRare
            || r == Rarity::BlackEpic || r == Rarity::BlackLegendary),
{
}

} // verus!
