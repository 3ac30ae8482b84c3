use garden_program::{
    calculate_expiry_time, censor_geolocation, dispatch, parse_instruction, process_instruction,
    process_premium_subscription, Action, ActorAccount, DecodeError, DecodedInstruction,
    DispatchError, InstructionError, PeriodCode, SubscriptionQuote, WireFormat,
};

const NOW: i64 = 1_700_000_000;

fn owned_actor() -> ActorAccount {
    ActorAccount { key: [7u8; 32], authorized: true }
}

fn foreign_actor() -> ActorAccount {
    ActorAccount { key: [9u8; 32], authorized: false }
}

fn rich(action: u8, period: u8, text: &str) -> Vec<u8> {
    let mut data = vec![action, period];
    data.extend_from_slice(text.as_bytes());
    data
}

#[test]
fn plant_picture_minimal_layout() {
    let out = process_instruction(WireFormat::Minimal, &[0, 0], &owned_actor(), NOW).unwrap();
    assert_eq!(out.record.description, "planted a picture");
    assert_eq!(out.record.actor, [7u8; 32]);
    assert_eq!(out.record.timestamp, NOW);
    assert_eq!(out.record.geolocation, None);
    assert_eq!(out.quote, None);
}

#[test]
fn subscribe_seven_months_minimal_layout() {
    let out = process_instruction(WireFormat::Minimal, &[3, 1], &owned_actor(), NOW).unwrap();
    let quote = out.quote.unwrap();
    assert_eq!(quote.period, PeriodCode::SevenMonths);
    assert_eq!(quote.payment, 500_000);
    assert_eq!(quote.expiry, NOW as u64 + 210 * 86400);
    assert_eq!(out.record.description, "subscribed to premium");
    assert_eq!(out.record.geolocation, None);
}

#[test]
fn rich_layout_masks_geolocation() {
    let data = rich(0, 0, "NewYorkCity");
    let out = process_instruction(WireFormat::Rich, &data, &owned_actor(), NOW).unwrap();
    assert_eq!(out.record.description, "planted a picture");
    assert_eq!(out.record.geolocation, Some("NewYork****".to_string()));
    assert_eq!(out.quote, None);
}

#[test]
fn unknown_action_is_rejected() {
    let r = process_instruction(WireFormat::Minimal, &[9, 0], &owned_actor(), NOW);
    assert_eq!(r, Err(InstructionError::Dispatch(DispatchError::UnknownAction)));
}

#[test]
fn single_byte_is_too_short() {
    for format in [WireFormat::Minimal, WireFormat::Rich] {
        let r = process_instruction(format, &[0], &owned_actor(), NOW);
        assert_eq!(r, Err(InstructionError::Decode(DecodeError::TooShort)));
    }
}

#[test]
fn empty_buffer_is_too_short() {
    let r = process_instruction(WireFormat::Minimal, &[], &owned_actor(), NOW);
    assert_eq!(r, Err(InstructionError::Decode(DecodeError::TooShort)));
}

#[test]
fn short_texts_are_not_masked() {
    for text in ["", "a", "abc", "é€x"] {
        assert_eq!(censor_geolocation(text), text);
    }
}

#[test]
fn long_texts_mask_last_four_characters() {
    assert_eq!(censor_geolocation("abcd"), "****");
    assert_eq!(censor_geolocation("Paris"), "P****");
    assert_eq!(censor_geolocation("Zürich"), "Zü****");
    assert_eq!(censor_geolocation("東京都渋谷区"), "東京****");
    let masked = censor_geolocation("São Paulo");
    assert_eq!(masked.chars().count(), 9);
    assert!(masked.ends_with("****"));
    assert!(masked.starts_with("São P"));
}

#[test]
fn rich_layout_below_minimum_is_too_short_whatever_the_bytes() {
    for data in [[0u8, 0], [255, 255], [3, 1]] {
        assert_eq!(parse_instruction(WireFormat::Rich, &data), Err(DecodeError::TooShort));
    }
}

#[test]
fn minimal_layout_decodes_any_two_bytes() {
    for (a, p) in [(0u8, 0u8), (9, 200), (255, 255)] {
        let ins = parse_instruction(WireFormat::Minimal, &[a, p, 42]).unwrap();
        assert_eq!(ins, DecodedInstruction { action: a, period: p, geolocation: None });
    }
}

#[test]
fn rich_layout_decodes_text() {
    let data = rich(2, 1, "Zürich");
    let ins = parse_instruction(WireFormat::Rich, &data).unwrap();
    assert_eq!(ins.action, 2);
    assert_eq!(ins.period, 1);
    assert_eq!(ins.geolocation, Some("Zürich".to_string()));
}

#[test]
fn rich_layout_rejects_invalid_text() {
    assert_eq!(parse_instruction(WireFormat::Rich, &[0, 0, 0xff]), Err(DecodeError::InvalidText));
    assert_eq!(
        parse_instruction(WireFormat::Rich, &[0, 0, 0xc3]),
        Err(DecodeError::InvalidText)
    );
    let r = process_instruction(WireFormat::Rich, &[1, 0, 0xed, 0xa0, 0x80], &owned_actor(), NOW);
    assert_eq!(r, Err(InstructionError::Decode(DecodeError::InvalidText)));
}

#[test]
fn unauthorized_actor_always_fails() {
    for action in 0u8..=5 {
        let data = rich(action, 0, "Berlin");
        let r = process_instruction(WireFormat::Rich, &data, &foreign_actor(), NOW);
        assert_eq!(r, Err(InstructionError::Dispatch(DispatchError::NotAuthorized)));
        let r = process_instruction(WireFormat::Minimal, &[action, 0], &foreign_actor(), NOW);
        assert_eq!(r, Err(InstructionError::Dispatch(DispatchError::NotAuthorized)));
    }
}

#[test]
fn unknown_period_is_rejected() {
    let r = process_instruction(WireFormat::Minimal, &[3, 3], &owned_actor(), NOW);
    assert_eq!(r, Err(InstructionError::Dispatch(DispatchError::UnknownPeriod)));
}

#[test]
fn gardening_descriptions() {
    let cases = [(0u8, "planted a picture"), (1, "watered a plant"), (2, "harvested a plant")];
    for (code, words) in cases {
        let data = rich(code, 9, "Lima");
        let out = process_instruction(WireFormat::Rich, &data, &owned_actor(), NOW).unwrap();
        assert_eq!(out.record.description, words);
        assert_eq!(out.record.geolocation, Some("****".to_string()));
        assert_eq!(out.quote, None);
    }
}

#[test]
fn subscription_in_rich_layout_has_no_location() {
    let data = rich(3, 2, "Oslo Centre");
    let out = process_instruction(WireFormat::Rich, &data, &owned_actor(), 0).unwrap();
    assert_eq!(
        out.quote,
        Some(SubscriptionQuote { period: PeriodCode::OneYear, payment: 1_000_000, expiry: 365 * 86400 })
    );
    assert_eq!(out.record.geolocation, None);
}

#[test]
fn expiry_for_each_period() {
    assert_eq!(calculate_expiry_time(PeriodCode::ThreeMonths, 0), 7_776_000);
    assert_eq!(calculate_expiry_time(PeriodCode::SevenMonths, 0), 18_144_000);
    assert_eq!(calculate_expiry_time(PeriodCode::OneYear, 0), 31_536_000);
    assert_eq!(calculate_expiry_time(PeriodCode::ThreeMonths, 1_000), 7_777_000);
}

#[test]
fn expiry_moves_with_purchase_time() {
    for period in [PeriodCode::ThreeMonths, PeriodCode::SevenMonths, PeriodCode::OneYear] {
        for (now, delta) in [(0u64, 1u64), (1_700_000_000, 86_400), (5, 1 << 40)] {
            assert_eq!(
                calculate_expiry_time(period, now + delta),
                calculate_expiry_time(period, now) + delta
            );
        }
    }
}

#[test]
fn expiry_near_the_largest_time() {
    let now = u64::MAX - 365 * 86400;
    assert_eq!(calculate_expiry_time(PeriodCode::OneYear, now), u64::MAX);
}

#[test]
fn prices_and_codes() {
    assert_eq!(PeriodCode::ThreeMonths.payment(), 300_000);
    assert_eq!(PeriodCode::SevenMonths.payment(), 500_000);
    assert_eq!(PeriodCode::OneYear.payment(), 1_000_000);
    assert_eq!(PeriodCode::OneYear.duration_days(), 365);
    assert_eq!(PeriodCode::from_code(1), Some(PeriodCode::SevenMonths));
    assert_eq!(PeriodCode::from_code(3), None);
    assert_eq!(Action::from_code(3), Some(Action::SubscribePremium));
    assert_eq!(Action::from_code(4), None);
    assert_eq!(Action::Watering.description(), "watered a plant");
}

#[test]
fn quote_for_three_months() {
    let q = process_premium_subscription(PeriodCode::ThreeMonths, 100);
    assert_eq!(q.payment, 300_000);
    assert_eq!(q.expiry, 100 + 90 * 86400);
}

#[test]
fn dispatch_masks_decoded_geolocation() {
    let ins = DecodedInstruction { action: 1, period: 0, geolocation: Some("Amsterdam".to_string()) };
    let out = dispatch(ins, &owned_actor(), 42).unwrap();
    assert_eq!(out.record.geolocation, Some("Amste****".to_string()));
    assert_eq!(out.record.timestamp, 42);
    let ins = DecodedInstruction { action: 2, period: 0, geolocation: None };
    assert_eq!(dispatch(ins, &foreign_actor(), 42), Err(DispatchError::NotAuthorized));
}
