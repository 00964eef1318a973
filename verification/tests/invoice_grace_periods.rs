use creditra_contracts::invoice::{GracePeriodError, InvoiceContract};
use creditra_contracts::invoice_model::MAX_GRACE_PERIOD_DAYS;

#[test]
fn test_set_grace_period_days_valid() {
    let mut contract = InvoiceContract::new();

    // Test boundary values
    assert!(contract.set_grace_period_days(0).is_ok());
    assert_eq!(contract.get_grace_period_days(), 0);

    assert!(contract.set_grace_period_days(45).is_ok());
    assert_eq!(contract.get_grace_period_days(), 45);

    // Test maximum value
    assert!(contract.set_grace_period_days(90).is_ok());
    assert_eq!(contract.get_grace_period_days(), 90);
}

#[test]
fn test_set_grace_period_days_exceeds_max() {
    let mut contract = InvoiceContract::new();

    // Test exceeding by 1
    let result = contract.set_grace_period_days(91);
    assert!(result.is_err());
    assert_eq!(
        result.unwrap_err(),
        GracePeriodError::ExceededMaximumGracePeriod {
            days: 91,
            max: 90
        }
    );

    // Test significantly exceeding
    let result = contract.set_grace_period_days(365);
    assert!(result.is_err());
    assert_eq!(
        result.unwrap_err(),
        GracePeriodError::ExceededMaximumGracePeriod {
            days: 365,
            max: 90
        }
    );

    // Global grace period should remain unchanged after failed attempts
    assert_eq!(contract.get_grace_period_days(), 0);
}

#[test]
fn test_set_invoice_grace_period_valid() {
    let mut contract = InvoiceContract::new();
    contract.create_invoice("INV001".to_string(), 1000).unwrap();

    // Test boundary values
    assert!(contract.set_invoice_grace_period("INV001", 0).is_ok());
    assert_eq!(contract.get_invoice_grace_period("INV001").unwrap(), 0);

    assert!(contract.set_invoice_grace_period("INV001", 45).is_ok());
    assert_eq!(contract.get_invoice_grace_period("INV001").unwrap(), 45);

    // Test maximum value (now aligned with global max)
    assert!(contract.set_invoice_grace_period("INV001", 90).is_ok());
    assert_eq!(contract.get_invoice_grace_period("INV001").unwrap(), 90);
}

#[test]
fn test_set_invoice_grace_period_exceeds_max() {
    let mut contract = InvoiceContract::new();
    contract.create_invoice("INV001".to_string(), 1000).unwrap();

    // Test exceeding by 1
    let result = contract.set_invoice_grace_period("INV001", 91);
    assert!(result.is_err());
    assert_eq!(
        result.unwrap_err(),
        GracePeriodError::ExceededMaximumGracePeriod {
            days: 91,
            max: 90
        }
    );

    // Test significantly exceeding
    let result = contract.set_invoice_grace_period("INV001", 365);
    assert!(result.is_err());
    assert_eq!(
        result.unwrap_err(),
        GracePeriodError::ExceededMaximumGracePeriod {
            days: 365,
            max: 90
        }
    );

    // Invoice grace period should remain unchanged after failed attempts
    assert!(contract.get_invoice_grace_period("INV001").is_ok());
}

#[test]
fn test_set_invoice_grace_period_not_found() {
    let mut contract = InvoiceContract::new();

    let result = contract.set_invoice_grace_period("NONEXISTENT", 30);
    assert!(result.is_err());
    assert_eq!(
        result.unwrap_err(),
        GracePeriodError::InvoiceNotFound {
            id: "NONEXISTENT".to_string()
        }
    );
}

#[test]
fn test_set_invoice_grace_period_invalid_id() {
    let mut contract = InvoiceContract::new();

    let result = contract.set_invoice_grace_period("", 30);
    assert!(result.is_err());
    assert_eq!(result.unwrap_err(), GracePeriodError::InvalidInvoiceId);
}

#[test]
fn test_grace_period_override_precedence() {
    let mut contract = InvoiceContract::new();

    // Set global grace period
    contract.set_grace_period_days(30).unwrap();

    // Create invoice without override
    contract.create_invoice("INV001".to_string(), 1000).unwrap();
    assert_eq!(contract.get_invoice_grace_period("INV001").unwrap(), 30);

    // Set override for specific invoice
    contract.set_invoice_grace_period("INV001", 60).unwrap();
    assert_eq!(contract.get_invoice_grace_period("INV001").unwrap(), 60);

    // Change global grace period, override should still apply
    contract.set_grace_period_days(15).unwrap();
    assert_eq!(contract.get_invoice_grace_period("INV001").unwrap(), 60);

    // Clear override, should revert to global
    contract.clear_invoice_grace_period("INV001").unwrap();
    assert_eq!(contract.get_invoice_grace_period("INV001").unwrap(), 15);
}

#[test]
fn test_cap_consistency_between_setters() {
    let mut contract = InvoiceContract::new();
    contract.create_invoice("INV001".to_string(), 1000).unwrap();

    // Both setters should accept 90 days
    assert!(contract.set_grace_period_days(90).is_ok());
    assert!(contract.set_invoice_grace_period("INV001", 90).is_ok());

    // Both setters should reject 91 days
    assert!(contract.set_grace_period_days(91).is_err());
    assert!(contract.set_invoice_grace_period("INV001", 91).is_err());

    // Both should have the same error with same max value
    let global_err = contract.set_grace_period_days(100).unwrap_err();
    let per_invoice_err = contract.set_invoice_grace_period("INV001", 100).unwrap_err();

    match (global_err, per_invoice_err) {
        (
            GracePeriodError::ExceededMaximumGracePeriod {
                max: max_global, ..
            },
            GracePeriodError::ExceededMaximumGracePeriod {
                max: max_invoice, ..
            },
        ) => {
            assert_eq!(max_global, max_invoice);
            assert_eq!(max_global, MAX_GRACE_PERIOD_DAYS);
        }
        _ => panic!("Expected ExceededMaximumGracePeriod errors"),
    }
}

#[test]
fn test_per_invoice_override_flexibility() {
    let mut contract = InvoiceContract::new();

    // Set a modest global grace period
    contract.set_grace_period_days(30).unwrap();

    // Create multiple invoices
    contract.create_invoice("INV001".to_string(), 1000).unwrap();
    contract.create_invoice("INV002".to_string(), 2000).unwrap();
    contract.create_invoice("INV003".to_string(), 3000).unwrap();

    // Verify INV001 uses global default
    assert_eq!(contract.get_invoice_grace_period("INV001").unwrap(), 30);

    // Give INV002 extended grace (more than global, up to max)
    contract.set_invoice_grace_period("INV002", 90).unwrap();
    assert_eq!(contract.get_invoice_grace_period("INV002").unwrap(), 90);

    // Give INV003 reduced grace (less than global)
    contract.set_invoice_grace_period("INV003", 7).unwrap();
    assert_eq!(contract.get_invoice_grace_period("INV003").unwrap(), 7);

    // Verify flexibility: invoice can be granted more time than global setting
    assert!(contract.get_invoice_grace_period("INV002").unwrap()
        > contract.get_grace_period_days());
}

#[test]
fn test_clear_invoice_grace_period() {
    let mut contract = InvoiceContract::new();
    contract.set_grace_period_days(30).unwrap();
    contract.create_invoice("INV001".to_string(), 1000).unwrap();

    // Set override
    contract.set_invoice_grace_period("INV001", 60).unwrap();
    assert_eq!(contract.get_invoice_grace_period("INV001").unwrap(), 60);

    // Clear override
    contract.clear_invoice_grace_period("INV001").unwrap();
    assert_eq!(contract.get_invoice_grace_period("INV001").unwrap(), 30);
}

#[test]
fn test_clear_invoice_grace_period_invalid_id() {
    let mut contract = InvoiceContract::new();

    let result = contract.clear_invoice_grace_period("");
    assert!(result.is_err());
    assert_eq!(result.unwrap_err(), GracePeriodError::InvalidInvoiceId);

    let result = contract.clear_invoice_grace_period("NONEXISTENT");
    assert!(result.is_err());
    assert_eq!(
        result.unwrap_err(),
        GracePeriodError::InvoiceNotFound {
            id: "NONEXISTENT".to_string()
        }
    );
}

#[test]
fn test_create_invoice_valid() {
    let mut contract = InvoiceContract::new();

    assert!(contract.create_invoice("INV001".to_string(), 1000).is_ok());
    assert_eq!(contract.get_invoice_grace_period("INV001").unwrap(), 0);
}

#[test]
fn test_create_invoice_invalid_id() {
    let mut contract = InvoiceContract::new();

    let result = contract.create_invoice("".to_string(), 1000);
    assert!(result.is_err());
    assert_eq!(result.unwrap_err(), GracePeriodError::InvalidInvoiceId);
}


#[test]
fn test_realistic_workflow() {
    let mut contract = InvoiceContract::new();

    // Admin sets global grace period to 30 days
    contract.set_grace_period_days(30).unwrap();

    // Create several invoices
    contract.create_invoice("INV-2026-001".to_string(), 5000).unwrap();
    contract.create_invoice("INV-2026-002".to_string(), 7500).unwrap();
    contract.create_invoice("INV-2026-003".to_string(), 3000).unwrap();

    // Verify all invoices use global grace period initially
    assert_eq!(contract.get_invoice_grace_period("INV-2026-001").unwrap(), 30);
    assert_eq!(contract.get_invoice_grace_period("INV-2026-002").unwrap(), 30);
    assert_eq!(contract.get_invoice_grace_period("INV-2026-003").unwrap(), 30);

    // Admin grants INV-2026-001 extended grace due to customer issue
    contract
        .set_invoice_grace_period("INV-2026-001", 75)
        .unwrap();
    assert_eq!(contract.get_invoice_grace_period("INV-2026-001").unwrap(), 75);

    // Admin grants INV-2026-002 maximum grace period (emergency case)
    contract
        .set_invoice_grace_period("INV-2026-002", 90)
        .unwrap();
    assert_eq!(contract.get_invoice_grace_period("INV-2026-002").unwrap(), 90);

    // INV-2026-003 remains on global grace period
    assert_eq!(contract.get_invoice_grace_period("INV-2026-003").unwrap(), 30);

    // Admin updates global grace period to 45 days
    contract.set_grace_period_days(45).unwrap();

    // Overrides should still apply
    assert_eq!(contract.get_invoice_grace_period("INV-2026-001").unwrap(), 75);
    assert_eq!(contract.get_invoice_grace_period("INV-2026-002").unwrap(), 90);

    // New events without overrides should use the updated global setting
    assert_eq!(contract.get_invoice_grace_period("INV-2026-003").unwrap(), 45);
}

#[test]
fn doc_example_set_grace_period_days() {
    let mut contract = InvoiceContract::new();
    assert!(contract.set_grace_period_days(30).is_ok());
    assert!(contract.set_grace_period_days(90).is_ok());
    assert!(contract.set_grace_period_days(91).is_err());
}

#[test]
fn doc_example_set_invoice_grace_period() {
    let mut contract = InvoiceContract::new();
    contract.create_invoice("INV001".to_string(), 1000).unwrap();
    assert!(contract.set_invoice_grace_period("INV001", 45).is_ok());
    assert!(contract.set_invoice_grace_period("INV001", 90).is_ok());
    assert!(contract.set_invoice_grace_period("INV001", 91).is_err());
}

#[test]
fn max_grace_period_is_ninety_days() {
    assert_eq!(MAX_GRACE_PERIOD_DAYS, 90);
}

#[test]
fn default_contract_is_empty() {
    let contract = InvoiceContract::default();
    assert_eq!(contract.get_grace_period_days(), 0);
    assert_eq!(
        contract.get_invoice_grace_period("INV001").unwrap_err(),
        GracePeriodError::InvoiceNotFound { id: "INV001".to_string() }
    );
}

#[test]
fn empty_id_is_never_found() {
    let mut contract = InvoiceContract::new();
    contract.create_invoice("A".to_string(), 1).unwrap();
    assert_eq!(
        contract.get_invoice_grace_period("").unwrap_err(),
        GracePeriodError::InvoiceNotFound { id: String::new() }
    );
}

#[test]
fn creating_an_existing_invoice_replaces_it() {
    let mut contract = InvoiceContract::new();
    contract.set_grace_period_days(10).unwrap();
    contract.create_invoice("INV001".to_string(), 1000).unwrap();
    contract.set_invoice_grace_period("INV001", 60).unwrap();
    assert_eq!(contract.get_invoice_grace_period("INV001").unwrap(), 60);
    // Creating it again drops the override.
    contract.create_invoice("INV001".to_string(), 2000).unwrap();
    assert_eq!(contract.get_invoice_grace_period("INV001").unwrap(), 10);
}

#[test]
fn failed_operations_change_nothing() {
    let mut contract = InvoiceContract::new();
    contract.set_grace_period_days(20).unwrap();
    contract.create_invoice("INV001".to_string(), 1000).unwrap();
    contract.set_invoice_grace_period("INV001", 40).unwrap();

    assert!(contract.set_grace_period_days(91).is_err());
    assert!(contract.set_invoice_grace_period("INV001", 91).is_err());
    assert!(contract.set_invoice_grace_period("", 5).is_err());
    assert!(contract.clear_invoice_grace_period("MISSING").is_err());
    assert!(contract.create_invoice(String::new(), 5).is_err());

    assert_eq!(contract.get_grace_period_days(), 20);
    assert_eq!(contract.get_invoice_grace_period("INV001").unwrap(), 40);
}

#[test]
fn empty_id_is_checked_before_the_cap() {
    let mut contract = InvoiceContract::new();
    assert_eq!(
        contract.set_invoice_grace_period("", 500).unwrap_err(),
        GracePeriodError::InvalidInvoiceId
    );
}

#[test]
fn cap_is_checked_before_existence() {
    let mut contract = InvoiceContract::new();
    assert_eq!(
        contract.set_invoice_grace_period("MISSING", 91).unwrap_err(),
        GracePeriodError::ExceededMaximumGracePeriod { days: 91, max: 90 }
    );
    assert_eq!(
        contract.set_invoice_grace_period("MISSING", 90).unwrap_err(),
        GracePeriodError::InvoiceNotFound { id: "MISSING".to_string() }
    );
}

#[test]
fn operations_on_one_invoice_leave_others_alone() {
    let mut contract = InvoiceContract::new();
    contract.set_grace_period_days(30).unwrap();
    contract.create_invoice("A".to_string(), 1).unwrap();
    contract.create_invoice("B".to_string(), 2).unwrap();
    contract.set_invoice_grace_period("B", 12).unwrap();

    contract.set_invoice_grace_period("A", 80).unwrap();
    assert_eq!(contract.get_invoice_grace_period("B").unwrap(), 12);
    contract.clear_invoice_grace_period("A").unwrap();
    assert_eq!(contract.get_invoice_grace_period("B").unwrap(), 12);
    contract.create_invoice("A".to_string(), 3).unwrap();
    assert_eq!(contract.get_invoice_grace_period("B").unwrap(), 12);
    assert_eq!(contract.get_invoice_grace_period("A").unwrap(), 30);
}

#[test]
fn clone_keeps_every_grace_period() {
    let mut contract = InvoiceContract::new();
    contract.set_grace_period_days(25).unwrap();
    contract.create_invoice("A".to_string(), 1).unwrap();
    contract.create_invoice("B".to_string(), 2).unwrap();
    contract.set_invoice_grace_period("B", 70).unwrap();

    let copy = contract.clone();
    contract.set_grace_period_days(5).unwrap();
    assert_eq!(copy.get_grace_period_days(), 25);
    assert_eq!(copy.get_invoice_grace_period("A").unwrap(), 25);
    assert_eq!(copy.get_invoice_grace_period("B").unwrap(), 70);
}

#[test]
fn zero_day_override_beats_global() {
    let mut contract = InvoiceContract::new();
    contract.set_grace_period_days(60).unwrap();
    contract.create_invoice("A".to_string(), 1).unwrap();
    contract.set_invoice_grace_period("A", 0).unwrap();
    assert_eq!(contract.get_invoice_grace_period("A").unwrap(), 0);
}

#[test]
fn global_is_latest_successful_setting() {
    let mut contract = InvoiceContract::new();
    assert_eq!(contract.get_grace_period_days(), 0);
    contract.set_grace_period_days(12).unwrap();
    assert!(contract.set_grace_period_days(200).is_err());
    contract.create_invoice("A".to_string(), 1).unwrap();
    contract.set_invoice_grace_period("A", 80).unwrap();
    contract.clear_invoice_grace_period("A").unwrap();
    assert_eq!(contract.get_grace_period_days(), 12);
    contract.set_grace_period_days(33).unwrap();
    assert!(contract.set_grace_period_days(91).is_err());
    assert_eq!(contract.get_grace_period_days(), 33);
}
