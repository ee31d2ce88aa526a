//! The order processor: drink orders, dispense-code encoding, payment
//! checks, inventory-shortage handling, and the sales ledger.
//!
//! The processor is generic over two caller-supplied capabilities: a
//! [`QuantityChecker`] that reports whether a drink is out of stock, and a
//! [`Notifier`] that is told of each shortage. Both are ordinary traits of
//! this library with specification-level state, so every implementation is
//! held to the same contract.

use vstd::prelude::*;

use crate::price_manager::{spec_price_cents, spec_shortfall, price_cents, check_missing_money_for_product};
use crate::text::{spec_decimal, spec_euros, push_decimal, push_euros};

verus! {

/// The closed set of drinks the machine can dispense.
#[derive(Copy, Clone, Debug, PartialEq, Eq, Structural)]
pub enum DrinkType {
    Tea,
    Coffee,
    Chocolate,
    OrangeJuice,
}

/// The single-letter code of a drink in a dispense code.
pub open spec fn drink_letter(d: DrinkType) -> Seq<char> {
    match d {
        DrinkType::Tea => seq!['T'],
        DrinkType::Coffee => seq!['C'],
        DrinkType::Chocolate => seq!['H'],
        DrinkType::OrangeJuice => seq!['O'],
    }
}

/// The display name of a drink, as used in shortage messages and reports.
pub open spec fn drink_name(d: DrinkType) -> Seq<char> {
    match d {
        DrinkType::Tea => seq!['T', 'e', 'a'],
        DrinkType::Coffee => seq!['C', 'o', 'f', 'f', 'e', 'e'],
        DrinkType::Chocolate => seq!['C', 'h', 'o', 'c', 'o', 'l', 'a', 't', 'e'],
        DrinkType::OrangeJuice => seq!['O', 'r', 'a', 'n', 'g', 'e', 'J', 'u', 'i', 'c', 'e'],
    }
}

/// The display name of a drink.
pub fn drink_name_str(d: DrinkType) -> (r: &'static str)
    ensures
        r@ == drink_name(d),
{
    proof {
        reveal_strlit("Tea");
        reveal_strlit("Coffee");
        reveal_strlit("Chocolate");
        reveal_strlit("OrangeJuice");
    }
    let r: &'static str = match d {
        DrinkType::Tea => "Tea",
        DrinkType::Coffee => "Coffee",
        DrinkType::Chocolate => "Chocolate",
        DrinkType::OrangeJuice => "OrangeJuice",
    };
    proof {
        assert(r@ =~= drink_name(d));
    }
    r
}

/// Every drink variant, in declaration order.
pub fn all_drinks() -> (r: Vec<DrinkType>)
    ensures
        r@ == seq![
            DrinkType::Tea,
            DrinkType::Coffee,
            DrinkType::Chocolate,
            DrinkType::OrangeJuice,
        ],
{
    let mut r: Vec<DrinkType> = Vec::new();
    r.push(DrinkType::Tea);
    r.push(DrinkType::Coffee);
    r.push(DrinkType::Chocolate);
    r.push(DrinkType::OrangeJuice);
    proof {
        assert(r@ =~= seq![
            DrinkType::Tea,
            DrinkType::Coffee,
            DrinkType::Chocolate,
            DrinkType::OrangeJuice,
        ]);
    }
    r
}

/// A customer's drink selection: the drink, how many sugars, and whether it
/// should be served extra hot. Built with [`CustomerOrder::new`] and the
/// optional [`CustomerOrder::with_sugar`] and [`CustomerOrder::extra_hot`].
#[derive(Copy, Clone, PartialEq, Eq, Structural)]
pub struct CustomerOrder {
    pub drink_type: DrinkType,
    pub sugars: u8,
    pub extra_hot: bool,
}

impl CustomerOrder {
    /// An order for `drink_type` with no sugar, not extra hot.
    pub fn new(drink_type: DrinkType) -> (o: CustomerOrder)
        ensures
            o == (CustomerOrder { drink_type, sugars: 0, extra_hot: false }),
    {
        CustomerOrder { drink_type, sugars: 0, extra_hot: false }
    }

    /// The same order with the sugar count set to `sugar`.
    pub fn with_sugar(self, sugar: u8) -> (o: CustomerOrder)
        ensures
            o == (CustomerOrder { sugars: sugar, ..self }),
    {
        CustomerOrder { sugars: sugar, ..self }
    }

    /// The same order marked extra hot.
    pub fn extra_hot(self) -> (o: CustomerOrder)
        ensures
            o == (CustomerOrder { extra_hot: true, ..self }),
    {
        CustomerOrder { extra_hot: true, ..self }
    }
}

/// The `h` marker appended to the drink letter of an extra-hot order.
pub open spec fn hot_suffix(extra_hot: bool) -> Seq<char> {
    if extra_hot {
        seq!['h']
    } else {
        Seq::empty()
    }
}

/// The sugar field of a dispense code: empty for no sugar, else the decimal
/// count.
pub open spec fn sugar_field(sugars: u8) -> Seq<char> {
    if sugars == 0 {
        Seq::empty()
    } else {
        spec_decimal(sugars as nat)
    }
}

/// The spoon field of a dispense code: empty for no sugar, else the fixed
/// marker `0` (a spoon is supplied whenever sugar is; the field is a
/// sentinel, not a count).
pub open spec fn spoon_field(sugars: u8) -> Seq<char> {
    if sugars == 0 {
        Seq::empty()
    } else {
        seq!['0']
    }
}

/// The full dispense code of an order: drink letter, optional `h`, then the
/// sugar and spoon fields, colon-separated. Fields may be empty but are
/// never omitted.
pub open spec fn dispense_code(o: CustomerOrder) -> Seq<char> {
    drink_letter(o.drink_type) + hot_suffix(o.extra_hot) + seq![':'] + sugar_field(o.sugars)
        + seq![':'] + spoon_field(o.sugars)
}

/// The drink letter of an order, with the extra-hot marker when asked for.
pub fn get_drink_code(order: &CustomerOrder) -> (r: String)
    ensures
        r@ == drink_letter(order.drink_type) + hot_suffix(order.extra_hot),
{
    proof {
        reveal_strlit("T");
        reveal_strlit("C");
        reveal_strlit("H");
        reveal_strlit("O");
    }
    let letter: &'static str = match order.drink_type {
        DrinkType::Tea => "T",
        DrinkType::Coffee => "C",
        DrinkType::Chocolate => "H",
        DrinkType::OrangeJuice => "O",
    };
    let mut r: String = letter.to_owned();
    r.append(get_extra_hot_code(order.extra_hot));
    proof {
        assert(r@ =~= drink_letter(order.drink_type) + hot_suffix(order.extra_hot));
    }
    r
}

/// The extra-hot marker: `h` when asked for, nothing otherwise.
pub fn get_extra_hot_code(extra_hot: bool) -> (r: &'static str)
    ensures
        r@ == hot_suffix(extra_hot),
{
    proof {
        reveal_strlit("h");
        reveal_strlit("");
    }
    let r: &'static str = match extra_hot {
        true => "h",
        false => "",
    };
    proof {
        assert(r@ =~= hot_suffix(extra_hot));
    }
    r
}

/// The sugar field of a dispense code for `sugars` sugars.
pub fn get_sugars_code(sugars: u8) -> (r: String)
    ensures
        r@ == sugar_field(sugars),
{
    let mut r: String = String::new();
    if sugars != 0 {
        push_decimal(&mut r, sugars as u64);
    }
    proof {
        assert(r@ =~= sugar_field(sugars));
    }
    r
}

/// The spoon field of a dispense code for `sugars` sugars.
pub fn get_spoon_code(sugars: u8) -> (r: &'static str)
    ensures
        r@ == spoon_field(sugars),
{
    proof {
        reveal_strlit("0");
        reveal_strlit("");
    }
    let r: &'static str = match sugars {
        0 => "",
        _ => "0",
    };
    proof {
        assert(r@ =~= spoon_field(sugars));
    }
    r
}

/// An operator message wrapped in the machine's message tag.
pub open spec fn spec_message(text: Seq<char>) -> Seq<char> {
    seq!['M', ':'] + text
}

/// Wraps an arbitrary operator message in the `M:` tag. Pure formatting; no
/// machine state is read or changed.
pub fn process_message(message: String) -> (r: String)
    ensures
        r@ == spec_message(message@),
{
    proof {
        reveal_strlit("M:");
    }
    let mut r: String = "M:".to_owned();
    r.append(message.as_str());
    proof {
        assert(r@ =~= spec_message(message@));
    }
    r
}

/// For every order with at least one sugar, the dispense code carries the
/// decimal numeral of the sugar count as its sugar field and the fixed `0`
/// spoon marker as its spoon field.
pub proof fn lemma_sugared_order_code(o: CustomerOrder)
    requires
        o.sugars >= 1,
    ensures
        sugar_field(o.sugars) == spec_decimal(o.sugars as nat),
        spoon_field(o.sugars) == seq!['0'],
        dispense_code(o) == drink_letter(o.drink_type) + hot_suffix(o.extra_hot) + seq![':']
            + spec_decimal(o.sugars as nat) + seq![':'] + seq!['0'],
{
    assert(spoon_field(o.sugars) =~= seq!['0']);
}

/// For an order without sugar, both the sugar field and the spoon field are
/// empty, so the code ends in two adjacent colons.
pub proof fn lemma_sugarless_order_code(o: CustomerOrder)
    requires
        o.sugars == 0,
    ensures
        sugar_field(o.sugars) == Seq::<char>::empty(),
        spoon_field(o.sugars) == Seq::<char>::empty(),
        dispense_code(o) == drink_letter(o.drink_type) + hot_suffix(o.extra_hot) + seq![':', ':'],
{
    assert(dispense_code(o) =~= drink_letter(o.drink_type) + hot_suffix(o.extra_hot)
        + seq![':', ':']);
}

/// An extra-hot order puts the `h` marker immediately after the drink
/// letter, before the first colon; without it the colon follows the letter
/// directly.
pub proof fn lemma_extra_hot_marker(o: CustomerOrder)
    ensures
        dispense_code(o)[0] == drink_letter(o.drink_type)[0],
        o.extra_hot ==> dispense_code(o)[1] == 'h' && dispense_code(o)[2] == ':',
        !o.extra_hot ==> dispense_code(o)[1] == ':',
{
    assert(drink_letter(o.drink_type).len() == 1);
}

/// Reports whether a drink is currently out of stock. Supplied by the
/// caller at machine construction; the machine only reads it.
pub trait QuantityChecker {
    /// What the checker would answer for `drink_type`.
    spec fn spec_is_empty(&self, drink_type: DrinkType) -> bool;

    /// True when `drink_type` cannot currently be dispensed.
    fn is_empty(&self, drink_type: DrinkType) -> (r: bool)
        ensures
            r == self.spec_is_empty(drink_type),
    ;
}

/// Told of each detected shortage. Supplied by the caller at machine
/// construction. Every implementation records the drinks it was notified
/// of, in order, so that contracts can count notifications.
pub trait Notifier {
    /// The drinks this notifier has been told of so far, in order.
    spec fn notified(&self) -> Seq<DrinkType>;

    /// Reports a shortage of `drink_type`.
    fn notify_missing_drink(&mut self, drink_type: DrinkType)
        ensures
            final(self).notified() == old(self).notified().push(drink_type),
    ;
}

/// A quantity checker that reports every drink as in stock.
pub struct AlwaysInStock {}

impl QuantityChecker for AlwaysInStock {
    open spec fn spec_is_empty(&self, drink_type: DrinkType) -> bool {
        false
    }

    fn is_empty(&self, drink_type: DrinkType) -> (r: bool) {
        false
    }
}

/// A quantity checker driven by one explicit out-of-stock flag per drink.
pub struct DrinkShortages {
    pub tea: bool,
    pub coffee: bool,
    pub chocolate: bool,
    pub orange_juice: bool,
}

impl QuantityChecker for DrinkShortages {
    open spec fn spec_is_empty(&self, drink_type: DrinkType) -> bool {
        match drink_type {
            DrinkType::Tea => self.tea,
            DrinkType::Coffee => self.coffee,
            DrinkType::Chocolate => self.chocolate,
            DrinkType::OrangeJuice => self.orange_juice,
        }
    }

    fn is_empty(&self, drink_type: DrinkType) -> (r: bool) {
        match drink_type {
            DrinkType::Tea => self.tea,
            DrinkType::Coffee => self.coffee,
            DrinkType::Chocolate => self.chocolate,
            DrinkType::OrangeJuice => self.orange_juice,
        }
    }
}

/// A notifier that keeps the list of shortages it was told of.
pub struct RecordingNotifier {
    pub notified_drinks: Vec<DrinkType>,
}

impl RecordingNotifier {
    /// A notifier that has seen no shortage yet.
    pub fn new() -> (n: RecordingNotifier)
        ensures
            n.notified_drinks@ == Seq::<DrinkType>::empty(),
    {
        RecordingNotifier { notified_drinks: Vec::new() }
    }
}

impl Notifier for RecordingNotifier {
    open spec fn notified(&self) -> Seq<DrinkType> {
        self.notified_drinks@
    }

    fn notify_missing_drink(&mut self, drink_type: DrinkType) {
        self.notified_drinks.push(drink_type);
    }
}

/// The shortage message returned instead of a dispense code when a drink is
/// out of stock.
pub open spec fn shortage_message(d: DrinkType) -> Seq<char> {
    seq!['E', 'R', 'R', 'O', 'R', ':', ' ', 'S', 'h', 'o', 'r', 't', 'a', 'g', 'e', ' ', 'o', 'f', ' ']
        + drink_name(d)
}

/// The message returned when `missing` cents are still owed for an order.
pub open spec fn missing_money_message(missing: u64) -> Seq<char> {
    spec_message(
        seq!['M', 'i', 's', 's', 'i', 'n', 'g', ' '] + spec_euros(missing as nat)
            + seq![' ', 'e', 'u', 'r', 'o', 's'],
    )
}

/// The order processor: owns the sales ledger and the two capabilities it
/// was constructed with.
pub struct CoffeeMachine<Q: QuantityChecker, N: Notifier> {
    pub sold_tea: u32,
    pub sold_coffee: u32,
    pub sold_chocolate: u32,
    pub sold_orange_juice: u32,
    /// Accumulated earnings, in cents.
    pub money_earned: u64,
    pub quantity_checker: Q,
    pub notifier: N,
}

impl<Q: QuantityChecker, N: Notifier> CoffeeMachine<Q, N> {
    /// How many of drink `d` this machine has sold.
    pub open spec fn spec_count(self, d: DrinkType) -> u32 {
        match d {
            DrinkType::Tea => self.sold_tea,
            DrinkType::Coffee => self.sold_coffee,
            DrinkType::Chocolate => self.sold_chocolate,
            DrinkType::OrangeJuice => self.sold_orange_juice,
        }
    }

    /// No sale was recorded between `pre` and `post`: every count and the
    /// earnings are untouched.
    pub open spec fn spec_ledger_unchanged(pre: Self, post: Self) -> bool {
        &&& forall|d: DrinkType| post.spec_count(d) == pre.spec_count(d)
        &&& post.money_earned == pre.money_earned
    }

    /// Exactly one sale of drink `d` was recorded between `pre` and `post`:
    /// its count went up by one, every other count is untouched, and the
    /// earnings grew by its unit price.
    pub open spec fn spec_sale_recorded(pre: Self, post: Self, d: DrinkType) -> bool {
        &&& post.spec_count(d) == pre.spec_count(d) + 1
        &&& forall|e: DrinkType| e != d ==> post.spec_count(e) == pre.spec_count(e)
        &&& post.money_earned == pre.money_earned + spec_price_cents(d)
    }

    /// The full effect of processing `order` against stock: on a shortage,
    /// the shortage message comes back, the ledger is untouched and the
    /// notifier was told exactly once; otherwise the dispense code comes
    /// back, the sale is recorded and the notifier is untouched. The
    /// quantity checker is never changed.
    pub open spec fn spec_order_outcome(
        pre: Self,
        post: Self,
        order: CustomerOrder,
        result: Seq<char>,
    ) -> bool {
        &&& post.quantity_checker == pre.quantity_checker
        &&& if pre.quantity_checker.spec_is_empty(order.drink_type) {
            &&& result == shortage_message(order.drink_type)
            &&& Self::spec_ledger_unchanged(pre, post)
            &&& post.notifier.notified() == pre.notifier.notified().push(order.drink_type)
        } else {
            &&& result == dispense_code(order)
            &&& Self::spec_sale_recorded(pre, post, order.drink_type)
            &&& post.notifier == pre.notifier
        }
    }

    /// A machine with an empty ledger and the given capabilities.
    pub fn new(quantity_checker: Q, notifier: N) -> (m: CoffeeMachine<Q, N>)
        ensures
            m == (CoffeeMachine {
                sold_tea: 0u32,
                sold_coffee: 0u32,
                sold_chocolate: 0u32,
                sold_orange_juice: 0u32,
                money_earned: 0u64,
                quantity_checker,
                notifier,
            }),
            forall|d: DrinkType| m.spec_count(d) == 0,
    {
        CoffeeMachine {
            sold_tea: 0,
            sold_coffee: 0,
            sold_chocolate: 0,
            sold_orange_juice: 0,
            money_earned: 0,
            quantity_checker,
            notifier,
        }
    }

    /// Processes an order: checks stock, and either reports the shortage
    /// (notifying once, ledger untouched) or records the sale and returns
    /// the dispense code. Both outcomes are ordinary string results, never
    /// faults.
    pub fn process_order(&mut self, order: CustomerOrder) -> (result: String)
        requires
            old(self).spec_count(order.drink_type) < u32::MAX,
            old(self).money_earned + spec_price_cents(order.drink_type) <= u64::MAX,
        ensures
            Self::spec_order_outcome(*old(self), *final(self), order, result@),
    {
        let drink_code: String = get_drink_code(&order);
        let sugars: String = get_sugars_code(order.sugars);
        let spoon: &'static str = get_spoon_code(order.sugars);

        if self.quantity_checker.is_empty(order.drink_type) {
            self.notifier.notify_missing_drink(order.drink_type);
            proof {
                reveal_strlit("ERROR: Shortage of ");
            }
            let mut msg: String = "ERROR: Shortage of ".to_owned();
            msg.append(drink_name_str(order.drink_type));
            proof {
                assert(msg@ =~= shortage_message(order.drink_type));
            }
            return msg;
        }

        self.register_order(order);
        proof {
            reveal_strlit(":");
        }
        let mut code: String = drink_code;
        code.append(":");
        code.append(sugars.as_str());
        code.append(":");
        code.append(spoon);
        proof {
            assert(code@ =~= dispense_code(order));
        }
        code
    }

    /// Processes an order paid with `money` cents: when the payment falls
    /// short, reports how much is missing and leaves the whole machine
    /// untouched; otherwise the order is processed exactly as by
    /// [`Self::process_order`]. An exact payment is accepted.
    pub fn process_order_with_money(&mut self, order: CustomerOrder, money: u64) -> (result:
        String)
        requires
            old(self).spec_count(order.drink_type) < u32::MAX,
            old(self).money_earned + spec_price_cents(order.drink_type) <= u64::MAX,
        ensures
            money < spec_price_cents(order.drink_type) ==> {
                &&& result@ == missing_money_message(
                    spec_shortfall(spec_price_cents(order.drink_type), money),
                )
                &&& *final(self) == *old(self)
            },
            money >= spec_price_cents(order.drink_type) ==> Self::spec_order_outcome(
                *old(self),
                *final(self),
                order,
                result@,
            ),
    {
        let missing_money: u64 = check_missing_money_for_product(order.drink_type, money);

        if missing_money > 0 {
            proof {
                reveal_strlit("Missing ");
                reveal_strlit(" euros");
            }
            let mut text: String = "Missing ".to_owned();
            push_euros(&mut text, missing_money);
            text.append(" euros");
            let result: String = process_message(text);
            proof {
                assert(result@ =~= missing_money_message(missing_money));
            }
            result
        } else {
            self.process_order(order)
        }
    }

    /// The accumulated earnings, in cents.
    pub fn get_total_money_sold(&self) -> (m: u64)
        ensures
            m == self.money_earned,
    {
        self.money_earned
    }

    /// How many of `drink_type` were sold; zero if never sold.
    pub fn get_total_amount_sold(&self, drink_type: DrinkType) -> (n: u32)
        ensures
            n == self.spec_count(drink_type),
    {
        match drink_type {
            DrinkType::Tea => self.sold_tea,
            DrinkType::Coffee => self.sold_coffee,
            DrinkType::Chocolate => self.sold_chocolate,
            DrinkType::OrangeJuice => self.sold_orange_juice,
        }
    }

    /// Two successive successful sales of the same drink raise its count by
    /// exactly one each and the earnings by exactly its unit price each, so
    /// both grow strictly monotonically.
    pub proof fn lemma_repeated_sales_accumulate(
        s0: CoffeeMachine<Q, N>,
        s1: CoffeeMachine<Q, N>,
        s2: CoffeeMachine<Q, N>,
        d: DrinkType,
    )
        requires
            Self::spec_sale_recorded(s0, s1, d),
            Self::spec_sale_recorded(s1, s2, d),
        ensures
            s1.spec_count(d) == s0.spec_count(d) + 1,
            s2.spec_count(d) == s0.spec_count(d) + 2,
            s1.money_earned == s0.money_earned + spec_price_cents(d),
            s2.money_earned == s0.money_earned + 2 * spec_price_cents(d),
            s0.spec_count(d) < s1.spec_count(d) < s2.spec_count(d),
            s0.money_earned < s1.money_earned < s2.money_earned,
    {
    }

    /// Records one successful sale: bumps the drink's count and adds its
    /// price to the earnings.
    fn register_order(&mut self, order: CustomerOrder)
        requires
            old(self).spec_count(order.drink_type) < u32::MAX,
            old(self).money_earned + spec_price_cents(order.drink_type) <= u64::MAX,
        ensures
            Self::spec_sale_recorded(*old(self), *final(self), order.drink_type),
            final(self).quantity_checker == old(self).quantity_checker,
            final(self).notifier == old(self).notifier,
    {
        let price: u64 = price_cents(order.drink_type);
        self.money_earned = self.money_earned + price;

        match order.drink_type {
            DrinkType::Tea => {
                self.sold_tea = self.sold_tea + 1;
            },
            DrinkType::Coffee => {
                self.sold_coffee = self.sold_coffee + 1;
            },
            DrinkType::Chocolate => {
                self.sold_chocolate = self.sold_chocolate + 1;
            },
            DrinkType::OrangeJuice => {
                self.sold_orange_juice = self.sold_orange_juice + 1;
            },
        }
    }
}

} // verus!
