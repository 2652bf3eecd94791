use rpg::damage::{DEXTERITY_INFLUENCE_SCALE_BITS, DEXTERITY_INFLUENCE_SIGNIFICAND, FIFTH_LIMIT};
use rpg::scaling::{scale, Factor};

const FIFTH: Factor = Factor {
    significand: DEXTERITY_INFLUENCE_SIGNIFICAND,
    scale_bits: DEXTERITY_INFLUENCE_SCALE_BITS,
};

const ONE: Factor = Factor { significand: 1, scale_bits: 0 };

fn binary64_fifth(value: i64) -> i64 {
    ((value as f64) * 0.2) as i64
}

fn binary64_one(value: i64) -> i64 {
    ((value as f64) * 1_f64) as i64
}

const EDGES: [i64; 30] = [
    0,
    1,
    2,
    3,
    4,
    5,
    9,
    10,
    11,
    14,
    15,
    (1 << 51) * 3 - 1,
    (1 << 51) * 3,
    (1 << 51) * 3 + 1,
    (1 << 52) - 1,
    (1 << 52),
    (1 << 53) - 3,
    (1 << 53) - 1,
    (1 << 53),
    (1 << 53) + 1,
    (1 << 53) + 2,
    (1 << 53) + 3,
    (1 << 54) - 1,
    (1 << 54) + 2,
    (1 << 54) + 6,
    (1 << 62) + 511,
    (1 << 62) + 512,
    (1 << 62) + 513,
    i64::MAX - 1,
    i64::MAX,
];

#[test]
fn the_dexterity_influence_is_the_binary64_fifth() {
    let factor = 0.2_f64;
    assert_eq!(factor.to_bits(), 0x3FC9_9999_9999_999A);
    assert_eq!(
        DEXTERITY_INFLUENCE_SIGNIFICAND as f64 / (1u64 << DEXTERITY_INFLUENCE_SCALE_BITS) as f64,
        factor
    );
    assert_eq!(5 * DEXTERITY_INFLUENCE_SIGNIFICAND, (1u64 << 54) + 1);
}

#[test]
fn scale_by_a_fifth_gives_exact_values() {
    assert_eq!(scale(0, FIFTH), 0);
    assert_eq!(scale(4, FIFTH), 0);
    assert_eq!(scale(5, FIFTH), 1);
    assert_eq!(scale(10, FIFTH), 2);
    assert_eq!(scale(14, FIFTH), 2);
    assert_eq!(scale(-4, FIFTH), 0);
    assert_eq!(scale(-5, FIFTH), -1);
    assert_eq!(scale(-9, FIFTH), -1);
    assert_eq!(scale(-10, FIFTH), -2);
    assert_eq!(scale(1_000_000_007, FIFTH), 200_000_001);
}

#[test]
fn scale_by_a_fifth_rounds_as_binary64_does() {
    assert_eq!(scale(3 * (1 << 51) - 1, FIFTH), 1351079888211148);
    assert_eq!(scale(3 * (1 << 51), FIFTH), 1351079888211149);
    assert_eq!(scale((1 << 53) - 3, FIFTH), 1801439850948198);
    assert_eq!(scale(i64::MAX, FIFTH), 1844674407370955264);
    assert_eq!(scale(i64::MIN, FIFTH), -1844674407370955264);
}

#[test]
fn scale_by_one_rounds_and_saturates_as_binary64_does() {
    assert_eq!(scale(0, ONE), 0);
    assert_eq!(scale(10, ONE), 10);
    assert_eq!(scale(-10, ONE), -10);
    assert_eq!(scale(1 << 53, ONE), 1 << 53);
    assert_eq!(scale((1 << 53) + 1, ONE), 1 << 53);
    assert_eq!(scale((1 << 53) + 3, ONE), (1 << 53) + 4);
    assert_eq!(scale(-((1 << 53) + 1), ONE), -(1 << 53));
    assert_eq!(scale(i64::MAX - 1, ONE), i64::MAX);
    assert_eq!(scale(i64::MAX, ONE), i64::MAX);
    assert_eq!(scale(i64::MIN, ONE), i64::MIN);
    assert_eq!(scale(i64::MIN + 1, ONE), i64::MIN);
}

#[test]
fn scale_agrees_with_binary64_at_the_edges() {
    for value in EDGES {
        assert_eq!(scale(value, FIFTH), binary64_fifth(value), "{} by a fifth", value);
        assert_eq!(scale(-value, FIFTH), binary64_fifth(-value), "{} by a fifth", -value);
        assert_eq!(scale(value, ONE), binary64_one(value), "{} by one", value);
        assert_eq!(scale(-value, ONE), binary64_one(-value), "{} by one", -value);
    }
    assert_eq!(scale(i64::MIN, FIFTH), binary64_fifth(i64::MIN));
    assert_eq!(scale(i64::MIN, ONE), binary64_one(i64::MIN));
}

#[test]
fn scale_agrees_with_binary64_on_small_values() {
    for value in -20_000..20_000 {
        assert_eq!(scale(value, FIFTH), binary64_fifth(value));
        assert_eq!(scale(value, FIFTH), value / 5);
        assert_eq!(scale(value, ONE), value);
    }
}

#[test]
fn scale_agrees_with_binary64_on_values_of_every_size() {
    let mut state: u64 = 0x9E37_79B9_7F4A_7C15;
    for round in 0..200_000u32 {
        state = state
            .wrapping_mul(6364136223846793005)
            .wrapping_add(1442695040888963407);
        let bits = 1 + round % 64;
        let value = (state as i64) >> (64 - bits);
        assert_eq!(scale(value, FIFTH), binary64_fifth(value), "{} by a fifth", value);
        assert_eq!(scale(value, ONE), binary64_one(value), "{} by one", value);
    }
}

#[test]
fn scale_agrees_with_binary64_for_other_factors() {
    let factors = [
        (Factor { significand: 1, scale_bits: 1 }, 0.5_f64),
        (Factor { significand: 3, scale_bits: 2 }, 0.75_f64),
        (Factor { significand: 3, scale_bits: 0 }, 3_f64),
        (Factor { significand: 0, scale_bits: 0 }, 0_f64),
        (Factor { significand: 5, scale_bits: 1 }, 2.5_f64),
        (Factor { significand: 0x1F_FFFF_FFFF_FFFF, scale_bits: 53 }, 0.9999999999999999_f64),
        (Factor { significand: 0x1F_FFFF_FFFF_FFFF, scale_bits: 0 }, 9007199254740991_f64),
        (Factor { significand: 1, scale_bits: 127 }, 5.877471754111438e-39_f64),
        (Factor { significand: 7205759403792794, scale_bits: 56 }, 0.1_f64),
    ];
    let mut state: u64 = 0x2545_F491_4F6C_DD1D;
    for (factor, float) in factors {
        assert_eq!(
            factor.significand as f64 / 2_f64.powi(factor.scale_bits as i32),
            float
        );
        for value in EDGES {
            assert_eq!(scale(value, factor), ((value as f64) * float) as i64);
            assert_eq!(scale(-value, factor), ((-value as f64) * float) as i64);
        }
        for round in 0..20_000u32 {
            state = state
                .wrapping_mul(6364136223846793005)
                .wrapping_add(1442695040888963407);
            let bits = 1 + round % 64;
            let value = (state as i64) >> (64 - bits);
            assert_eq!(
                scale(value, factor),
                ((value as f64) * float) as i64,
                "{} by {}",
                value,
                float
            );
        }
    }
}

#[test]
fn factor_new_takes_what_is_well_formed() {
    assert_eq!(
        Factor::new(DEXTERITY_INFLUENCE_SIGNIFICAND, DEXTERITY_INFLUENCE_SCALE_BITS),
        Some(FIFTH)
    );
    assert_eq!(Factor::new(1, 0), Some(ONE));
    assert_eq!(
        Factor::new((1 << 53) - 1, 127),
        Some(Factor { significand: (1 << 53) - 1, scale_bits: 127 })
    );
    assert_eq!(Factor::new(1 << 53, 0), None);
    assert_eq!(Factor::new(u64::MAX, 0), None);
    assert_eq!(Factor::new(1, 128), None);
    assert_eq!(Factor::new(1, u32::MAX), None);
}

#[test]
fn below_the_limit_a_fifth_is_a_division_by_five() {
    assert_eq!(FIFTH_LIMIT, 3 * (1 << 51));
    let mut state: u64 = 0x0123_4567_89AB_CDEF;
    for _ in 0..200_000u32 {
        state = state
            .wrapping_mul(6364136223846793005)
            .wrapping_add(1442695040888963407);
        let value = (state >> 11) as i64 % FIFTH_LIMIT;
        assert_eq!(scale(value, FIFTH), value / 5);
        assert_eq!(scale(-value, FIFTH), -value / 5);
    }
    for distance in 1..10_000 {
        let value = FIFTH_LIMIT - distance;
        assert_eq!(scale(value, FIFTH), value / 5);
        assert_eq!(scale(-value, FIFTH), -value / 5);
    }
    assert_eq!(scale(FIFTH_LIMIT, FIFTH), FIFTH_LIMIT / 5 + 1);
    assert_eq!(scale(-FIFTH_LIMIT, FIFTH), -FIFTH_LIMIT / 5 - 1);
}

#[test]
fn up_to_the_significand_limit_one_changes_nothing() {
    let limit: i64 = 1 << 53;
    let mut state: u64 = 0xFEDC_BA98_7654_3210;
    for _ in 0..200_000u32 {
        state = state
            .wrapping_mul(6364136223846793005)
            .wrapping_add(1442695040888963407);
        let value = (state >> 11) as i64;
        assert!(value < limit);
        assert_eq!(scale(value, ONE), value);
        assert_eq!(scale(-value, ONE), -value);
    }
    assert_eq!(scale(limit, ONE), limit);
    assert_eq!(scale(-limit, ONE), -limit);
    assert_eq!(scale(limit + 1, ONE), limit);
}
