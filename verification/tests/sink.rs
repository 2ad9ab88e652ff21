use nois_payment::addr::Addr;
use nois_payment::sink::{Ash, Ashes, ContractError};
use nois_payment::types::Coin;

#[test]
fn accepted_burn_appends_one_event() {
    let mut log = Ashes::new();
    log.record_burn(
        Some(Addr::unchecked("nois-gateway".to_string())),
        vec![Coin::new(500_000, "unois")],
        1_000,
    )
    .unwrap();
    assert_eq!(log.len(), 1);
    assert_eq!(
        *log.get(0),
        Ash {
            burner: Some(Addr::unchecked("nois-gateway".to_string())),
            amount: Coin::new(500_000, "unois"),
            time: 1_000,
        }
    );
}

#[test]
fn burns_keep_chronological_order() {
    let mut log = Ashes::new();
    log.record_burn(None, vec![Coin::new(1, "unois")], 1_000).unwrap();
    log.record_burn(None, vec![Coin::new(2, "unois")], 1_000).unwrap();
    log.record_burn(
        Some(Addr::unchecked("burner-a".to_string())),
        vec![Coin::new(3, "unois")],
        2_000,
    )
    .unwrap();
    assert_eq!(log.len(), 3);
    assert!(log.get(0).time <= log.get(1).time);
    assert!(log.get(1).time <= log.get(2).time);
    assert_eq!(log.get(0).amount, Coin::new(1, "unois"));
    assert_eq!(log.get(2).burner, Some(Addr::unchecked("burner-a".to_string())));
}

#[test]
fn burn_without_coins_is_rejected() {
    let mut log = Ashes::new();
    let err = log.record_burn(None, vec![], 1_000).unwrap_err();
    assert!(matches!(err, ContractError::NoCoins));
    assert_eq!(log.len(), 0);
}

#[test]
fn burn_with_two_coins_is_rejected() {
    let mut log = Ashes::new();
    let err = log
        .record_burn(
            None,
            vec![Coin::new(1, "unois"), Coin::new(2, "unoisx")],
            1_000,
        )
        .unwrap_err();
    assert!(matches!(err, ContractError::TooManyCoins));
    assert_eq!(log.len(), 0);
}

#[test]
fn burn_with_zero_amount_is_rejected() {
    let mut log = Ashes::new();
    let err = log
        .record_burn(None, vec![Coin::new(0, "unois")], 1_000)
        .unwrap_err();
    assert!(matches!(err, ContractError::NoCoins));
    assert_eq!(log.len(), 0);
}
