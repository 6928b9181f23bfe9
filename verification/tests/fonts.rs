use sim_engine::{FontBudgetResource, FontError};
use sim_logic::font::{TextError, TextRegistry};
use sim_logic::identity::ApplicationId;
use sim_logic::limits::TextLimits;

fn registry(application: u64, limits: TextLimits) -> TextRegistry {
    TextRegistry::new(ApplicationId::from_raw(application), limits)
}

#[test]
fn font_count_and_parse_limits_reject_before_publication() {
    let mut disabled = registry(1, TextLimits::new(0, usize::MAX));
    assert!(matches!(
        disabled.register(Vec::new(), 8 * 1024 * 1024, 65_535),
        Err(TextError::FontLimitExceeded { limit: 0 })
    ));
    let mut fonts = registry(1, TextLimits::new(8, 32 * 1024 * 1024));
    assert!(matches!(
        fonts.register(vec![0; 12], 8 * 1024 * 1024, 65_535),
        Err(TextError::Font(FontError::InvalidFont))
    ));
    assert!(matches!(
        fonts.register(vec![0; 12], 1, 65_535),
        Err(TextError::Font(FontError::BudgetExceeded {
            resource: FontBudgetResource::FontBytes,
            ..
        }))
    ));
    assert_eq!(fonts.len(), 0);
    assert_eq!(fonts.font_bytes(), 0);
}

#[test]
fn the_total_byte_cap_charges_actual_capacity() {
    let mut spare: Vec<u8> = Vec::with_capacity(300);
    spare.extend_from_slice(&[0; 12]);
    let actual = spare.capacity();
    let mut too_small = registry(1, TextLimits::new(1, actual - 1));
    assert!(matches!(
        too_small.register(spare, usize::MAX, 65_535),
        Err(TextError::FontByteLimitExceeded { incoming, retained: 0, limit })
            if incoming == actual && limit == actual - 1
    ));
    assert_eq!(too_small.len(), 0);
    assert_eq!(too_small.font_bytes(), 0);
}
