use coffee_machine::machine::{
    AlwaysInStock, CoffeeMachine, CustomerOrder, DrinkShortages, DrinkType, RecordingNotifier,
    all_drinks, drink_name_str, get_drink_code, get_extra_hot_code, get_spoon_code,
    get_sugars_code, process_message,
};
use coffee_machine::price_manager::{check_missing_money_for_product, price_cents};
use coffee_machine::printer::generate_sales_report;
use coffee_machine::text::{decimal_string, euros_string};

fn stocked() -> CoffeeMachine<AlwaysInStock, RecordingNotifier> {
    CoffeeMachine::new(AlwaysInStock {}, RecordingNotifier::new())
}

// Sugar and spoon fields of the dispense code.
#[test]
fn test_sugar_field_is_decimal_count_and_spoon_marker_fixed() {
    let mut m = stocked();
    assert_eq!("T:5:0", m.process_order(CustomerOrder::new(DrinkType::Tea).with_sugar(5)));
    assert_eq!("C:17:0", m.process_order(CustomerOrder::new(DrinkType::Coffee).with_sugar(17)));
    assert_eq!("O:255:0", m.process_order(CustomerOrder::new(DrinkType::OrangeJuice).with_sugar(255)));
}

#[test]
fn test_no_sugar_leaves_both_fields_empty() {
    assert_eq!("", get_sugars_code(0));
    assert_eq!("", get_spoon_code(0));
    assert_eq!("2", get_sugars_code(2));
    assert_eq!("0", get_spoon_code(2));
}

// The extra-hot marker sits between the drink letter and the first colon.
#[test]
fn test_extra_hot_marker_follows_drink_letter() {
    let mut m = stocked();
    assert_eq!("Ch:1:0", m.process_order(CustomerOrder::new(DrinkType::Coffee).with_sugar(1).extra_hot()));
    assert_eq!("Oh::", m.process_order(CustomerOrder::new(DrinkType::OrangeJuice).extra_hot()));
    assert_eq!("h", get_extra_hot_code(true));
    assert_eq!("", get_extra_hot_code(false));
    assert_eq!("Th", get_drink_code(&CustomerOrder::new(DrinkType::Tea).extra_hot()));
}

// Exact payment yields the same code as an unpaid order.
#[test]
fn test_exact_payment_matches_unpaid_order_code() {
    let order = CustomerOrder::new(DrinkType::Tea).with_sugar(3).extra_hot();
    let mut unpaid = stocked();
    let code = unpaid.process_order(order);
    let mut paid = stocked();
    let paid_code = paid.process_order_with_money(order, price_cents(DrinkType::Tea));
    assert_eq!(code, paid_code);
    assert_eq!(unpaid.get_total_money_sold(), paid.get_total_money_sold());
    assert_eq!(
        unpaid.get_total_amount_sold(DrinkType::Tea),
        paid.get_total_amount_sold(DrinkType::Tea)
    );
}

// An insufficient payment reports the shortfall and records nothing.
#[test]
fn test_insufficient_payment_reports_shortfall_and_records_nothing() {
    let mut m = stocked();
    let r = m.process_order_with_money(CustomerOrder::new(DrinkType::Coffee), 15);
    assert_eq!("M:Missing 0.45 euros", r);
    assert_eq!(0, m.get_total_amount_sold(DrinkType::Coffee));
    assert_eq!(0, m.get_total_money_sold());
    assert_eq!(0, m.notifier.notified_drinks.len());
}

// Repeated successful orders accumulate one count and one price each.
#[test]
fn test_repeated_orders_accumulate_counts_and_money() {
    let mut m = stocked();
    for expected in 1..=3u32 {
        m.process_order(CustomerOrder::new(DrinkType::Tea));
        assert_eq!(expected, m.get_total_amount_sold(DrinkType::Tea));
        assert_eq!(u64::from(expected) * price_cents(DrinkType::Tea), m.get_total_money_sold());
    }
    assert_eq!(0, m.get_total_amount_sold(DrinkType::Coffee));
}

// A shortage returns the error message, notifies once, and records nothing.
#[test]
fn test_shortage_notifies_once_and_keeps_ledger() {
    let checker = DrinkShortages { tea: false, coffee: false, chocolate: true, orange_juice: false };
    let mut m = CoffeeMachine::new(checker, RecordingNotifier::new());
    let r = m.process_order(CustomerOrder::new(DrinkType::Chocolate).with_sugar(2));
    assert_eq!("ERROR: Shortage of Chocolate", r);
    assert_eq!(vec![DrinkType::Chocolate], m.notifier.notified_drinks);
    assert_eq!(0, m.get_total_amount_sold(DrinkType::Chocolate));
    assert_eq!(0, m.get_total_money_sold());

    // Other drinks still sell, and the notifier is not told again.
    assert_eq!("T::", m.process_order(CustomerOrder::new(DrinkType::Tea)));
    assert_eq!(1, m.notifier.notified_drinks.len());
}

#[test]
fn test_shortage_message_names_each_drink() {
    let checker = DrinkShortages { tea: true, coffee: true, chocolate: true, orange_juice: true };
    let mut m = CoffeeMachine::new(checker, RecordingNotifier::new());
    assert_eq!("ERROR: Shortage of Tea", m.process_order(CustomerOrder::new(DrinkType::Tea)));
    assert_eq!("ERROR: Shortage of Coffee", m.process_order(CustomerOrder::new(DrinkType::Coffee)));
    assert_eq!(
        "ERROR: Shortage of OrangeJuice",
        m.process_order(CustomerOrder::new(DrinkType::OrangeJuice))
    );
    assert_eq!(
        vec![DrinkType::Tea, DrinkType::Coffee, DrinkType::OrangeJuice],
        m.notifier.notified_drinks
    );
}

// Prices of the fixed catalog, and the shortfall query around them.
#[test]
fn test_price_catalog_and_shortfall() {
    assert_eq!(40, price_cents(DrinkType::Tea));
    assert_eq!(60, price_cents(DrinkType::Coffee));
    assert_eq!(50, price_cents(DrinkType::Chocolate));
    assert_eq!(60, price_cents(DrinkType::OrangeJuice));
    assert_eq!(40, check_missing_money_for_product(DrinkType::Tea, 0));
    assert_eq!(1, check_missing_money_for_product(DrinkType::Coffee, 59));
    assert_eq!(0, check_missing_money_for_product(DrinkType::Coffee, 60));
}

#[test]
fn test_message_tag_on_empty_text() {
    assert_eq!("M:", process_message(String::new()));
}

// Decimal and euro rendering.
#[test]
fn test_decimal_rendering() {
    assert_eq!("0", decimal_string(0));
    assert_eq!("9", decimal_string(9));
    assert_eq!("10", decimal_string(10));
    assert_eq!("255", decimal_string(255));
    assert_eq!("1000", decimal_string(1000));
}

#[test]
fn test_euro_rendering() {
    assert_eq!("0", euros_string(0));
    assert_eq!("0.05", euros_string(5));
    assert_eq!("0.4", euros_string(40));
    assert_eq!("0.45", euros_string(45));
    assert_eq!("1", euros_string(100));
    assert_eq!("1.1", euros_string(110));
    assert_eq!("33.6", euros_string(3360));
    assert_eq!("2", euros_string(200));
}

#[test]
fn test_insufficient_payment_with_two_digit_shortfall() {
    let mut m = stocked();
    let r = m.process_order_with_money(CustomerOrder::new(DrinkType::Chocolate), 45);
    assert_eq!("M:Missing 0.05 euros", r);
}

// The report covers every variant in declaration order, even all-zero.
#[test]
fn test_report_of_untouched_machine() {
    let m = stocked();
    assert_eq!(
        "SALES REPORT\nTea: 0\nCoffee: 0\nChocolate: 0\nOrangeJuice: 0\nTotal Money: 0",
        generate_sales_report(&m)
    );
}

#[test]
fn test_report_after_real_orders() {
    let mut m = stocked();
    m.process_order(CustomerOrder::new(DrinkType::Tea));
    m.process_order(CustomerOrder::new(DrinkType::Tea));
    m.process_order(CustomerOrder::new(DrinkType::Coffee));
    assert_eq!(
        "SALES REPORT\nTea: 2\nCoffee: 1\nChocolate: 0\nOrangeJuice: 0\nTotal Money: 1.4",
        generate_sales_report(&m)
    );
}

#[test]
fn test_all_drinks_in_declaration_order() {
    assert_eq!(
        vec![DrinkType::Tea, DrinkType::Coffee, DrinkType::Chocolate, DrinkType::OrangeJuice],
        all_drinks()
    );
    assert_eq!("Tea", drink_name_str(DrinkType::Tea));
    assert_eq!("OrangeJuice", drink_name_str(DrinkType::OrangeJuice));
}

#[test]
fn test_order_builder_defaults() {
    let o = CustomerOrder::new(DrinkType::Tea);
    assert_eq!(DrinkType::Tea, o.drink_type);
    assert_eq!(0, o.sugars);
    assert!(!o.extra_hot);
    let o2 = o.with_sugar(4).extra_hot();
    assert_eq!(4, o2.sugars);
    assert!(o2.extra_hot);
}
