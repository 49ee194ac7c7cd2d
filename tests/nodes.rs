use moonrs::dynamic::DynamicNode;
use moonrs::nodes::{
    BalanceSheet, Bonds, CashFlow, Company, Currency, Earnings, Equity, FinancialStatement,
    IncomeStatement, NodeKind, Options, OptionsAggregate, PriceAggregate, Publisher, StaticNode,
};

fn bar(close: i64) -> PriceAggregate {
    PriceAggregate { open: close - 1, high: close + 2, low: close - 2, close, volume: 100 }
}

fn feed(node: &mut dyn DynamicNode<PriceAggregate>, index: u64, close: i64) -> bool {
    node.update(index, bar(close))
}

#[test]
fn currency_series_through_the_uniform_contract() {
    let mut c = Currency::new("EUR".to_string());
    assert!(c.empty());
    assert!(feed(&mut c, 20, 2));
    assert!(feed(&mut c, 10, 1));
    assert!(feed(&mut c, 30, 3));
    assert!(!feed(&mut c, 20, 9));
    assert!(!c.empty());
    assert_eq!(c.to_vec(), vec![&bar(1), &bar(2), &bar(3)]);
    assert_eq!(c.first(), Some(&bar(1)));
    assert_eq!(c.last(), Some(&bar(3)));
    assert_eq!(c.between(15, 30), Some(vec![&bar(2), &bar(3)]));
    assert_eq!(c.between(31, 40), Some(vec![]));
}

#[test]
fn equity_and_bonds_forward_to_their_history() {
    let mut e = Equity::new("ACME".to_string());
    let mut b = Bonds::new("T10".to_string());
    assert!(e.update(1, bar(5)));
    assert!(b.update(2, bar(7)));
    assert_eq!(e.to_vec(), vec![&bar(5)]);
    assert_eq!(b.first(), Some(&bar(7)));
    assert_eq!(b.between(0, 1), Some(vec![]));
}

#[test]
fn options_forward_to_their_history() {
    let mut o = Options::new("ACME-C-100".to_string());
    let a = OptionsAggregate { open: 1, high: 2, low: 0, close: 1, volume: 5, open_interest: 7 };
    let z = OptionsAggregate { open: 3, high: 4, low: 2, close: 3, volume: 6, open_interest: 8 };
    assert!(o.update(9, z));
    assert!(o.update(4, a));
    assert_eq!(o.to_vec(), vec![&a, &z]);
    assert_eq!(o.last(), Some(&z));
}

#[test]
fn publisher_sentiment_series() {
    let mut p = Publisher::new("Daily".to_string());
    assert!(p.empty());
    assert_eq!(p.first(), None);
    assert!(p.update(2, -300_000));
    assert!(p.update(1, 800_000));
    assert_eq!(p.to_vec(), vec![&800_000, &-300_000]);
    assert_eq!(p.between(2, 2), Some(vec![&-300_000]));
}

#[test]
fn identity_of_entities() {
    let c = Currency::new("USD".to_string());
    assert_eq!(c.name(), "USD");
    assert_eq!(c.cls(), "Currency");
    let co = Company::new("ACME".to_string());
    assert_eq!(co.name(), "ACME");
    assert_eq!(co.cls(), "Company");
    assert_eq!(Publisher::new("P".to_string()).cls(), "Publisher");
    assert_eq!(Equity::new("E".to_string()).cls(), "Equity");
    assert_eq!(Bonds::new("B".to_string()).cls(), "Bonds");
    assert_eq!(Options::new("O".to_string()).cls(), "Options");
}

fn statements() -> (IncomeStatement, BalanceSheet, CashFlow, Earnings) {
    (
        IncomeStatement { revenue: 1000, net_income: 100 },
        BalanceSheet { total_assets: 5000, total_liabilities: 3000 },
        CashFlow { operating: 200, investing: -50, financing: -25 },
        Earnings { reported_eps: 150, estimated_eps: 140 },
    )
}

#[test]
fn dispatch_routes_each_statement_to_its_series() {
    let mut co = Company::new("ACME".to_string());
    let (i, b, c, e) = statements();
    let d = |co: &mut Company, at: u64, s: FinancialStatement| {
        <Company as DynamicNode<FinancialStatement>>::update(co, at, s)
    };
    assert!(d(&mut co, 1, FinancialStatement::IncomeStatement(i)));
    assert!(d(&mut co, 1, FinancialStatement::BalanceSheet(b)));
    assert!(d(&mut co, 1, FinancialStatement::CashFlow(c)));
    assert!(d(&mut co, 1, FinancialStatement::Earnings(e)));
    assert!(!d(&mut co, 1, FinancialStatement::Earnings(e)));
    assert!(d(&mut co, 2, FinancialStatement::Earnings(e)));
    assert_eq!(<Company as DynamicNode<IncomeStatement>>::to_vec(&co), vec![&i]);
    assert_eq!(<Company as DynamicNode<BalanceSheet>>::first(&co), Some(&b));
    assert_eq!(<Company as DynamicNode<CashFlow>>::last(&co), Some(&c));
    assert_eq!(<Company as DynamicNode<Earnings>>::to_vec(&co), vec![&e, &e]);
}

#[test]
fn dispatch_binding_serves_no_reads() {
    let mut co = Company::new("ACME".to_string());
    assert!(!<Company as DynamicNode<FinancialStatement>>::empty(&co));
    let (i, b, c, e) = statements();
    let all = [
        FinancialStatement::IncomeStatement(i),
        FinancialStatement::BalanceSheet(b),
        FinancialStatement::CashFlow(c),
        FinancialStatement::Earnings(e),
    ];
    for (k, s) in all.iter().enumerate() {
        assert!(<Company as DynamicNode<FinancialStatement>>::update(&mut co, k as u64, *s));
        assert!(!<Company as DynamicNode<FinancialStatement>>::empty(&co));
        assert!(<Company as DynamicNode<FinancialStatement>>::to_vec(&co).is_empty());
        assert_eq!(<Company as DynamicNode<FinancialStatement>>::first(&co), None);
        assert_eq!(<Company as DynamicNode<FinancialStatement>>::last(&co), None);
        assert_eq!(<Company as DynamicNode<FinancialStatement>>::between(&co, 0, 10), None);
    }
    assert!(!<Company as DynamicNode<IncomeStatement>>::empty(&co));
}

#[test]
fn per_statement_bindings_are_independent() {
    let mut co = Company::new("ACME".to_string());
    let (i, _, _, _) = statements();
    assert!(<Company as DynamicNode<IncomeStatement>>::update(&mut co, 3, i));
    assert!(!<Company as DynamicNode<IncomeStatement>>::empty(&co));
    assert!(<Company as DynamicNode<BalanceSheet>>::empty(&co));
    assert!(<Company as DynamicNode<CashFlow>>::empty(&co));
    assert!(<Company as DynamicNode<Earnings>>::empty(&co));
    assert_eq!(<Company as DynamicNode<IncomeStatement>>::between(&co, 3, 3), Some(vec![&i]));
}

#[test]
fn currency_handle_downcasts_to_currency_only() {
    let mut c = Currency::new("JPY".to_string());
    assert!(c.update(1, bar(4)));
    let handle: &mut dyn DynamicNode<PriceAggregate> = &mut c;
    let any = handle.as_any_mute();
    assert_eq!(any.kind(), NodeKind::Currency);
    let back = any.downcast_currency().expect("a currency handle");
    assert_eq!(back.name(), "JPY");
    assert_eq!(back.cls(), "Currency");
    assert_eq!(back.first(), Some(&bar(4)));
}

#[test]
fn currency_handle_refuses_other_kinds() {
    let mut c = Currency::new("JPY".to_string());
    let handle: &mut dyn DynamicNode<PriceAggregate> = &mut c;
    assert!(handle.as_any_mute().downcast_equity().is_none());
    assert!(handle.as_any_mute().downcast_bonds().is_none());
    assert!(handle.as_any_mute().downcast_options().is_none());
    assert!(handle.as_any_mute().downcast_company().is_none());
    assert!(handle.as_any_mute().downcast_publisher().is_none());
    assert!(handle.as_any_mute().downcast_currency().is_some());
}

#[test]
fn company_handle_downcasts_to_company() {
    let mut co = Company::new("ACME".to_string());
    let any = <Company as DynamicNode<FinancialStatement>>::as_any_mute(&mut co);
    assert_eq!(any.kind(), NodeKind::Company);
    assert_eq!(any.downcast_company().map(|c| c.name().to_string()), Some("ACME".to_string()));
}
