use ordinals::Coordinate;
use ordinals::Rarity;
use ordinals::derive_rarity;
use ordinals::derivation::DIFFCHANGE_INTERVAL;
use ordinals::derivation::SUBSIDY_HALVING_INTERVAL;

/// Smallest indivisible units per coin.
const COIN_VALUE: u64 = 100_000_000;

/// Decompose a unit's absolute ordinal index into its positional
/// coordinate and the subsidy of its epoch, using the real protocol
/// constants. This step is the external collaborator's job; the tests
/// perform it so that boundary cases can be named by ordinal index.
fn coordinate_of(sat: u64) -> (Coordinate, u64) {
    let mut epoch: u64 = 0;
    let mut epoch_start: u64 = 0;
    let mut subsidy: u64 = 50 * COIN_VALUE;
    while sat - epoch_start >= subsidy * SUBSIDY_HALVING_INTERVAL {
        epoch_start += subsidy * SUBSIDY_HALVING_INTERVAL;
        epoch += 1;
        subsidy /= 2;
        assert!(subsidy > 0, "ordinal index beyond the emitted supply");
    }
    let offset = sat - epoch_start;
    let height = epoch * SUBSIDY_HALVING_INTERVAL + offset / subsidy;
    let coordinate = Coordinate {
        epoch,
        epoch_position: height % SUBSIDY_HALVING_INTERVAL,
        period_position: height % DIFFCHANGE_INTERVAL,
        subsidy_position: offset % subsidy,
    };
    (coordinate, subsidy)
}

fn rarity_of(sat: u64) -> Rarity {
    let (coordinate, subsidy) = coordinate_of(sat);
    assert!(coordinate.subsidy_position < subsidy);
    derive_rarity(coordinate, subsidy)
}

#[test]
fn rarity() {
    assert_eq!(rarity_of(0), Rarity::Mythic);
    assert_eq!(rarity_of(1), Rarity::Common);

    assert_eq!(rarity_of(50 * COIN_VALUE - 1), Rarity::BlackUncommon);
    assert_eq!(rarity_of(50 * COIN_VALUE), Rarity::Uncommon);
    assert_eq!(rarity_of(50 * COIN_VALUE + 1), Rarity::Common);

    assert_eq!(
        rarity_of(50 * COIN_VALUE * DIFFCHANGE_INTERVAL - 1),
        Rarity::BlackRare
    );
    assert_eq!(
        rarity_of(50 * COIN_VALUE * DIFFCHANGE_INTERVAL),
        Rarity::Rare
    );
    assert_eq!(
        rarity_of(50 * COIN_VALUE * DIFFCHANGE_INTERVAL + 1),
        Rarity::Common
    );

    assert_eq!(
        rarity_of(50 * COIN_VALUE * SUBSIDY_HALVING_INTERVAL - 1),
        Rarity::BlackEpic
    );
    assert_eq!(
        rarity_of(50 * COIN_VALUE * SUBSIDY_HALVING_INTERVAL),
        Rarity::Epic
    );
    assert_eq!(
        rarity_of(50 * COIN_VALUE * SUBSIDY_HALVING_INTERVAL + 1),
        Rarity::Common
    );

    assert_eq!(rarity_of(2067187500000000 - 1), Rarity::BlackLegendary);
    assert_eq!(rarity_of(2067187500000000), Rarity::Legendary);
    assert_eq!(rarity_of(2067187500000000 + 1), Rarity::Common);
}

fn case(s: &str, expected: Rarity) {
    let actual = s.parse::<Rarity>().unwrap();
    assert_eq!(actual, expected);
    let round_trip = actual.name().parse::<Rarity>().unwrap();
    assert_eq!(round_trip, expected);
}

#[test]
fn from_str_and_deserialize_ok() {
    case("common", Rarity::Common);
    case("uncommon", Rarity::Uncommon);
    case("rare", Rarity::Rare);
    case("epic", Rarity::Epic);
    case("legendary", Rarity::Legendary);
    case("mythic", Rarity::Mythic);
    case("black_uncommon", Rarity::BlackUncommon);
    case("black_rare", Rarity::BlackRare);
    case("black_epic", Rarity::BlackEpic);
    case("black_legendary", Rarity::BlackLegendary);
}

#[test]
fn conversions_with_u8() {
    for &expected in &[
        Rarity::Common,
        Rarity::Uncommon,
        Rarity::Rare,
        Rarity::Epic,
        Rarity::Legendary,
        Rarity::Mythic,
    ] {
        let n: u8 = expected.to_small_int().unwrap();
        let actual = Rarity::from_small_int(n).unwrap();
        assert_eq!(actual, expected);
    }

    assert_eq!(Rarity::from_small_int(6), Err(6));
}

#[test]
fn error() {
    assert_eq!("foo".parse::<Rarity>().unwrap_err(), "invalid rarity `foo`");
}

#[test]
fn error_carries_input_verbatim() {
    let err = Rarity::parse("foo").unwrap_err();
    assert_eq!(err.input, "foo");
    assert_eq!(err.message(), "invalid rarity `foo`");

    let empty = Rarity::parse("").unwrap_err();
    assert_eq!(empty.input, "");
    assert_eq!(empty.message(), "invalid rarity ``");
}

#[test]
fn numeric_codes_are_dense_and_bounded() {
    assert_eq!(Rarity::from_small_int(0), Ok(Rarity::Common));
    assert_eq!(Rarity::from_small_int(1), Ok(Rarity::Uncommon));
    assert_eq!(Rarity::from_small_int(2), Ok(Rarity::Rare));
    assert_eq!(Rarity::from_small_int(3), Ok(Rarity::Epic));
    assert_eq!(Rarity::from_small_int(4), Ok(Rarity::Legendary));
    assert_eq!(Rarity::from_small_int(5), Ok(Rarity::Mythic));
    for n in 6..=u8::MAX {
        assert_eq!(Rarity::from_small_int(n), Err(n));
    }
}

#[test]
fn black_tiers_have_no_numeric_code() {
    assert_eq!(Rarity::BlackUncommon.to_small_int(), None);
    assert_eq!(Rarity::BlackRare.to_small_int(), None);
    assert_eq!(Rarity::BlackEpic.to_small_int(), None);
    assert_eq!(Rarity::BlackLegendary.to_small_int(), None);
}

#[test]
fn every_tier_reachable_by_some_coordinate() {
    let reached = [
        (Coordinate { epoch: 0, epoch_position: 0, period_position: 0, subsidy_position: 0 }, 2, Rarity::Mythic),
        (Coordinate { epoch: 1, epoch_position: 0, period_position: 0, subsidy_position: 0 }, 2, Rarity::Legendary),
        (Coordinate { epoch: 1, epoch_position: 0, period_position: 7, subsidy_position: 0 }, 2, Rarity::Epic),
        (Coordinate { epoch: 0, epoch_position: 7, period_position: 0, subsidy_position: 0 }, 2, Rarity::Rare),
        (Coordinate { epoch: 0, epoch_position: 7, period_position: 7, subsidy_position: 0 }, 2, Rarity::Uncommon),
        (Coordinate { epoch: 0, epoch_position: 7, period_position: 7, subsidy_position: 1 }, 3, Rarity::Common),
        (Coordinate { epoch: 0, epoch_position: 7, period_position: 7, subsidy_position: 1 }, 2, Rarity::BlackUncommon),
        (Coordinate { epoch: 0, epoch_position: 7, period_position: 2015, subsidy_position: 1 }, 2, Rarity::BlackRare),
        (Coordinate { epoch: 0, epoch_position: 209_999, period_position: 7, subsidy_position: 1 }, 2, Rarity::BlackEpic),
        (Coordinate { epoch: 0, epoch_position: 209_999, period_position: 2015, subsidy_position: 1 }, 2, Rarity::BlackLegendary),
    ];
    for &(coordinate, subsidy, expected) in &reached {
        assert_eq!(derive_rarity(coordinate, subsidy), expected);
    }
}

#[test]
fn tiers_are_totally_ordered_in_declaration_order() {
    let tiers = [
        Rarity::Common,
        Rarity::Uncommon,
        Rarity::Rare,
        Rarity::Epic,
        Rarity::Legendary,
        Rarity::Mythic,
        Rarity::BlackUncommon,
        Rarity::BlackRare,
        Rarity::BlackEpic,
        Rarity::BlackLegendary,
    ];
    for i in 0..tiers.len() {
        for j in 0..tiers.len() {
            assert_eq!(tiers[i] < tiers[j], i < j);
            assert_eq!(tiers[i] == tiers[j], i == j);
            assert_eq!(tiers[i].rank(), i as u8);
        }
    }
}
