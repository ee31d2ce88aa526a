//! The sales reporter: a read-only, fixed-format rendering of a machine's
//! accumulated sales statistics.

use vstd::prelude::*;

use crate::machine::{CoffeeMachine, DrinkType, Notifier, QuantityChecker, drink_name, drink_name_str};
use crate::text::{spec_decimal, spec_euros, push_decimal, push_euros};

verus! {

/// One report line for a drink: a line break, the drink's name, and its
/// sales count.
pub open spec fn spec_drink_line(d: DrinkType, count: u32) -> Seq<char> {
    seq!['\n'] + drink_name(d) + seq![':', ' '] + spec_decimal(count as nat)
}

/// The closing report line with the total earnings in euros.
pub open spec fn spec_total_line(cents: u64) -> Seq<char> {
    seq!['\n', 'T', 'o', 't', 'a', 'l', ' ', 'M', 'o', 'n', 'e', 'y', ':', ' ']
        + spec_euros(cents as nat)
}

/// The whole sales report: a header, one line per drink variant in
/// declaration order, and the total earnings.
pub open spec fn spec_sales_report<Q: QuantityChecker, N: Notifier>(
    m: CoffeeMachine<Q, N>,
) -> Seq<char> {
    seq!['S', 'A', 'L', 'E', 'S', ' ', 'R', 'E', 'P', 'O', 'R', 'T']
        + spec_drink_line(DrinkType::Tea, m.spec_count(DrinkType::Tea))
        + spec_drink_line(DrinkType::Coffee, m.spec_count(DrinkType::Coffee))
        + spec_drink_line(DrinkType::Chocolate, m.spec_count(DrinkType::Chocolate))
        + spec_drink_line(DrinkType::OrangeJuice, m.spec_count(DrinkType::OrangeJuice))
        + spec_total_line(m.money_earned)
}

/// Appends one drink's report line.
fn push_drink_line(report: &mut String, d: DrinkType, count: u32)
    ensures
        final(report)@ == old(report)@ + spec_drink_line(d, count),
{
    proof {
        reveal_strlit("\n");
        reveal_strlit(": ");
    }
    report.append("\n");
    report.append(drink_name_str(d));
    report.append(": ");
    push_decimal(report, count as u64);
    proof {
        assert(report@ =~= old(report)@ + spec_drink_line(d, count));
    }
}

/// Renders the sales report of a machine: the header, one line per drink
/// variant in declaration order with its sales count, and the total
/// earnings. Reads the machine only.
pub fn generate_sales_report<Q: QuantityChecker, N: Notifier>(
    coffeemachine: &CoffeeMachine<Q, N>,
) -> (r: String)
    ensures
        r@ == spec_sales_report(*coffeemachine),
{
    proof {
        reveal_strlit("SALES REPORT");
        reveal_strlit("\nTotal Money: ");
    }
    let mut report: String = "SALES REPORT".to_owned();
    push_drink_line(&mut report, DrinkType::Tea, coffeemachine.get_total_amount_sold(DrinkType::Tea));
    push_drink_line(
        &mut report,
        DrinkType::Coffee,
        coffeemachine.get_total_amount_sold(DrinkType::Coffee),
    );
    push_drink_line(
        &mut report,
        DrinkType::Chocolate,
        coffeemachine.get_total_amount_sold(DrinkType::Chocolate),
    );
    push_drink_line(
        &mut report,
        DrinkType::OrangeJuice,
        coffeemachine.get_total_amount_sold(DrinkType::OrangeJuice),
    );
    report.append("\nTotal Money: ");
    push_euros(&mut report, coffeemachine.get_total_money_sold());
    proof {
        assert(report@ =~= spec_sales_report(*coffeemachine));
    }
    report
}

} // verus!
