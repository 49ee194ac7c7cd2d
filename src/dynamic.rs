use vstd::prelude::*;

use crate::nodes::{
    AnyNodeMut, BalanceSheet, Bonds, CashFlow, Company, Currency, Earnings, Equity,
    FinancialStatement, Holdings, IncomeStatement, NodeKind, Options, OptionsAggregate,
    PriceAggregate, Publisher, StaticNode,
};
use crate::series::{holds_index, lemma_pushed_holds, pushed, values_in};

verus! {

/// The uniform series contract of an entity: append an observation at an index, and
/// query observations by index order, without knowing the entity's concrete type.
///
/// A binding either forwards reads to one series (`readable`), or is a write-only
/// multiplexer that routes writes to several series and answers every read with
/// its "cannot answer" form: `false`, an empty vector, or `None`.
pub trait DynamicNode<T>: StaticNode {
    /// What the entity holds.
    spec fn holdings(&self) -> Holdings;

    /// The entity's series are well formed.
    open spec fn inv(&self) -> bool {
        self.holdings().wf()
    }

    /// Reads are served by one series.
    spec fn readable(&self) -> bool;

    /// The (index, value) pairs that reads see, in ascending index order.
    spec fn series(&self) -> Seq<(u64, T)>;

    /// `update(index, item)`, returning `changed`, takes the entity from `self` to one
    /// that holds `after`.
    spec fn updated(&self, after: Holdings, index: u64, item: T, changed: bool) -> bool;

    /// The concrete kind of the entity.
    spec fn kind_of(&self) -> NodeKind;

    /// Appends `item` at `index`; returns whether the entity changed.
    fn update(&mut self, index: u64, item: T) -> (r: bool)
        requires
            old(self).inv(),
        ensures
            final(self).inv(),
            old(self).updated(final(self).holdings(), index, item, r),
    ;

    fn empty(&self) -> (r: bool)
        requires
            self.inv(),
        ensures
            r == (self.readable() && self.series().len() == 0),
    ;

    /// All values, in ascending index order.
    fn to_vec(&self) -> (r: Vec<&T>)
        requires
            self.inv(),
        ensures
            r@.len() == (if self.readable() { self.series().len() } else { 0 }),
            forall|i: int| 0 <= i < r@.len() ==> *#[trigger] r@[i] == self.series()[i].1,
    ;

    /// The value at the smallest index.
    fn first(&self) -> (r: Option<&T>)
        requires
            self.inv(),
        ensures
            r.is_some() == (self.readable() && self.series().len() > 0),
            r.is_some() ==> *r.unwrap() == self.series()[0].1,
    ;

    /// The value at the largest index.
    fn last(&self) -> (r: Option<&T>)
        requires
            self.inv(),
        ensures
            r.is_some() == (self.readable() && self.series().len() > 0),
            r.is_some() ==> *r.unwrap() == self.series().last().1,
    ;

    /// The values with index in `[start, end]`, in ascending index order.
    fn between(&self, start: u64, end: u64) -> (r: Option<Vec<&T>>)
        requires
            self.inv(),
        ensures
            r.is_some() == self.readable(),
            r.is_some() ==> r.unwrap()@.len() == values_in(self.series(), start, end).len(),
            r.is_some() ==> forall|i: int| 0 <= i < r.unwrap()@.len()
                ==> *#[trigger] r.unwrap()@[i] == values_in(self.series(), start, end)[i],
    ;

    /// The entity as a handle tagged with its concrete kind.
    fn as_any_mute(&mut self) -> (r: AnyNodeMut<'_>)
        ensures
            r.kind_spec() == old(self).kind_of(),
            r.holdings_spec() == old(self).holdings(),
    ;
}

impl DynamicNode<i64> for Publisher {
    open spec fn holdings(&self) -> Holdings {
        self@
    }

    open spec fn readable(&self) -> bool {
        true
    }

    open spec fn series(&self) -> Seq<(u64, i64)> {
        self@.sentiments
    }

    open spec fn updated(&self, after: Holdings, index: u64, item: i64, changed: bool) -> bool {
        &&& pushed(self@.sentiments, after.sentiments, index, item, changed)
        &&& after == Holdings { sentiments: after.sentiments, ..self@ }
    }

    open spec fn kind_of(&self) -> NodeKind {
        NodeKind::Publisher
    }

    fn update(&mut self, index: u64, item: i64) -> (r: bool) {
        self.sentiments.push(index, item)
    }

    fn empty(&self) -> (r: bool) {
        self.sentiments.empty()
    }

    fn to_vec(&self) -> (r: Vec<&i64>) {
        self.sentiments.to_vec()
    }

    fn first(&self) -> (r: Option<&i64>) {
        self.sentiments.first()
    }

    fn last(&self) -> (r: Option<&i64>) {
        self.sentiments.last()
    }

    fn between(&self, start: u64, end: u64) -> (r: Option<Vec<&i64>>) {
        self.sentiments.between(&start, &end)
    }

    fn as_any_mute(&mut self) -> (r: AnyNodeMut<'_>) {
        AnyNodeMut::Publisher(self)
    }
}

impl DynamicNode<PriceAggregate> for Currency {
    open spec fn holdings(&self) -> Holdings {
        self@
    }

    open spec fn readable(&self) -> bool {
        true
    }

    open spec fn series(&self) -> Seq<(u64, PriceAggregate)> {
        self@.prices
    }

    open spec fn updated(&self, after: Holdings, index: u64, item: PriceAggregate, changed: bool) -> bool {
        &&& pushed(self@.prices, after.prices, index, item, changed)
        &&& after == Holdings { prices: after.prices, ..self@ }
    }

    open spec fn kind_of(&self) -> NodeKind {
        NodeKind::Currency
    }

    fn update(&mut self, index: u64, item: PriceAggregate) -> (r: bool) {
        self.history.push(index, item)
    }

    fn empty(&self) -> (r: bool) {
        self.history.empty()
    }

    fn to_vec(&self) -> (r: Vec<&PriceAggregate>) {
        self.history.to_vec()
    }

    fn first(&self) -> (r: Option<&PriceAggregate>) {
        self.history.first()
    }

    fn last(&self) -> (r: Option<&PriceAggregate>) {
        self.history.last()
    }

    fn between(&self, start: u64, end: u64) -> (r: Option<Vec<&PriceAggregate>>) {
        self.history.between(&start, &end)
    }

    fn as_any_mute(&mut self) -> (r: AnyNodeMut<'_>) {
        AnyNodeMut::Currency(self)
    }
}

impl DynamicNode<PriceAggregate> for Equity {
    open spec fn holdings(&self) -> Holdings {
        self@
    }

    open spec fn readable(&self) -> bool {
        true
    }

    open spec fn series(&self) -> Seq<(u64, PriceAggregate)> {
        self@.prices
    }

    open spec fn updated(&self, after: Holdings, index: u64, item: PriceAggregate, changed: bool) -> bool {
        &&& pushed(self@.prices, after.prices, index, item, changed)
        &&& after == Holdings { prices: after.prices, ..self@ }
    }

    open spec fn kind_of(&self) -> NodeKind {
        NodeKind::Equity
    }

    fn update(&mut self, index: u64, item: PriceAggregate) -> (r: bool) {
        self.history.push(index, item)
    }

    fn empty(&self) -> (r: bool) {
        self.history.empty()
    }

    fn to_vec(&self) -> (r: Vec<&PriceAggregate>) {
        self.history.to_vec()
    }

    fn first(&self) -> (r: Option<&PriceAggregate>) {
        self.history.first()
    }

    fn last(&self) -> (r: Option<&PriceAggregate>) {
        self.history.last()
    }

    fn between(&self, start: u64, end: u64) -> (r: Option<Vec<&PriceAggregate>>) {
        self.history.between(&start, &end)
    }

    fn as_any_mute(&mut self) -> (r: AnyNodeMut<'_>) {
        AnyNodeMut::Equity(self)
    }
}

impl DynamicNode<PriceAggregate> for Bonds {
    open spec fn holdings(&self) -> Holdings {
        self@
    }

    open spec fn readable(&self) -> bool {
        true
    }

    open spec fn series(&self) -> Seq<(u64, PriceAggregate)> {
        self@.prices
    }

    open spec fn updated(&self, after: Holdings, index: u64, item: PriceAggregate, changed: bool) -> bool {
        &&& pushed(self@.prices, after.prices, index, item, changed)
        &&& after == Holdings { prices: after.prices, ..self@ }
    }

    open spec fn kind_of(&self) -> NodeKind {
        NodeKind::Bonds
    }

    fn update(&mut self, index: u64, item: PriceAggregate) -> (r: bool) {
        self.history.push(index, item)
    }

    fn empty(&self) -> (r: bool) {
        self.history.empty()
    }

    fn to_vec(&self) -> (r: Vec<&PriceAggregate>) {
        self.history.to_vec()
    }

    fn first(&self) -> (r: Option<&PriceAggregate>) {
        self.history.first()
    }

    fn last(&self) -> (r: Option<&PriceAggregate>) {
        self.history.last()
    }

    fn between(&self, start: u64, end: u64) -> (r: Option<Vec<&PriceAggregate>>) {
        self.history.between(&start, &end)
    }

    fn as_any_mute(&mut self) -> (r: AnyNodeMut<'_>) {
        AnyNodeMut::Bonds(self)
    }
}

impl DynamicNode<OptionsAggregate> for Options {
    open spec fn holdings(&self) -> Holdings {
        self@
    }

    open spec fn readable(&self) -> bool {
        true
    }

    open spec fn series(&self) -> Seq<(u64, OptionsAggregate)> {
        self@.options
    }

    open spec fn updated(&self, after: Holdings, index: u64, item: OptionsAggregate, changed: bool) -> bool {
        &&& pushed(self@.options, after.options, index, item, changed)
        &&& after == Holdings { options: after.options, ..self@ }
    }

    open spec fn kind_of(&self) -> NodeKind {
        NodeKind::Options
    }

    fn update(&mut self, index: u64, item: OptionsAggregate) -> (r: bool) {
        self.history.push(index, item)
    }

    fn empty(&self) -> (r: bool) {
        self.history.empty()
    }

    fn to_vec(&self) -> (r: Vec<&OptionsAggregate>) {
        self.history.to_vec()
    }

    fn first(&self) -> (r: Option<&OptionsAggregate>) {
        self.history.first()
    }

    fn last(&self) -> (r: Option<&OptionsAggregate>) {
        self.history.last()
    }

    fn between(&self, start: u64, end: u64) -> (r: Option<Vec<&OptionsAggregate>>) {
        self.history.between(&start, &end)
    }

    fn as_any_mute(&mut self) -> (r: AnyNodeMut<'_>) {
        AnyNodeMut::Options(self)
    }
}

impl DynamicNode<IncomeStatement> for Company {
    open spec fn holdings(&self) -> Holdings {
        self@
    }

    open spec fn readable(&self) -> bool {
        true
    }

    open spec fn series(&self) -> Seq<(u64, IncomeStatement)> {
        self@.income_statements
    }

    open spec fn updated(&self, after: Holdings, index: u64, item: IncomeStatement, changed: bool) -> bool {
        &&& pushed(self@.income_statements, after.income_statements, index, item, changed)
        &&& after == Holdings { income_statements: after.income_statements, ..self@ }
    }

    open spec fn kind_of(&self) -> NodeKind {
        NodeKind::Company
    }

    fn update(&mut self, index: u64, item: IncomeStatement) -> (r: bool) {
        self.income_statement.push(index, item)
    }

    fn empty(&self) -> (r: bool) {
        self.income_statement.empty()
    }

    fn to_vec(&self) -> (r: Vec<&IncomeStatement>) {
        self.income_statement.to_vec()
    }

    fn first(&self) -> (r: Option<&IncomeStatement>) {
        self.income_statement.first()
    }

    fn last(&self) -> (r: Option<&IncomeStatement>) {
        self.income_statement.last()
    }

    fn between(&self, start: u64, end: u64) -> (r: Option<Vec<&IncomeStatement>>) {
        self.income_statement.between(&start, &end)
    }

    fn as_any_mute(&mut self) -> (r: AnyNodeMut<'_>) {
        AnyNodeMut::Company(self)
    }
}

impl DynamicNode<BalanceSheet> for Company {
    open spec fn holdings(&self) -> Holdings {
        self@
    }

    open spec fn readable(&self) -> bool {
        true
    }

    open spec fn series(&self) -> Seq<(u64, BalanceSheet)> {
        self@.balance_sheets
    }

    open spec fn updated(&self, after: Holdings, index: u64, item: BalanceSheet, changed: bool) -> bool {
        &&& pushed(self@.balance_sheets, after.balance_sheets, index, item, changed)
        &&& after == Holdings { balance_sheets: after.balance_sheets, ..self@ }
    }

    open spec fn kind_of(&self) -> NodeKind {
        NodeKind::Company
    }

    fn update(&mut self, index: u64, item: BalanceSheet) -> (r: bool) {
        self.balance_sheet.push(index, item)
    }

    fn empty(&self) -> (r: bool) {
        self.balance_sheet.empty()
    }

    fn to_vec(&self) -> (r: Vec<&BalanceSheet>) {
        self.balance_sheet.to_vec()
    }

    fn first(&self) -> (r: Option<&BalanceSheet>) {
        self.balance_sheet.first()
    }

    fn last(&self) -> (r: Option<&BalanceSheet>) {
        self.balance_sheet.last()
    }

    fn between(&self, start: u64, end: u64) -> (r: Option<Vec<&BalanceSheet>>) {
        self.balance_sheet.between(&start, &end)
    }

    fn as_any_mute(&mut self) -> (r: AnyNodeMut<'_>) {
        AnyNodeMut::Company(self)
    }
}

impl DynamicNode<CashFlow> for Company {
    open spec fn holdings(&self) -> Holdings {
        self@
    }

    open spec fn readable(&self) -> bool {
        true
    }

    open spec fn series(&self) -> Seq<(u64, CashFlow)> {
        self@.cash_flows
    }

    open spec fn updated(&self, after: Holdings, index: u64, item: CashFlow, changed: bool) -> bool {
        &&& pushed(self@.cash_flows, after.cash_flows, index, item, changed)
        &&& after == Holdings { cash_flows: after.cash_flows, ..self@ }
    }

    open spec fn kind_of(&self) -> NodeKind {
        NodeKind::Company
    }

    fn update(&mut self, index: u64, item: CashFlow) -> (r: bool) {
        self.cash_flow.push(index, item)
    }

    fn empty(&self) -> (r: bool) {
        self.cash_flow.empty()
    }

    fn to_vec(&self) -> (r: Vec<&CashFlow>) {
        self.cash_flow.to_vec()
    }

    fn first(&self) -> (r: Option<&CashFlow>) {
        self.cash_flow.first()
    }

    fn last(&self) -> (r: Option<&CashFlow>) {
        self.cash_flow.last()
    }

    fn between(&self, start: u64, end: u64) -> (r: Option<Vec<&CashFlow>>) {
        self.cash_flow.between(&start, &end)
    }

    fn as_any_mute(&mut self) -> (r: AnyNodeMut<'_>) {
        AnyNodeMut::Company(self)
    }
}

impl DynamicNode<Earnings> for Company {
    open spec fn holdings(&self) -> Holdings {
        self@
    }

    open spec fn readable(&self) -> bool {
        true
    }

    open spec fn series(&self) -> Seq<(u64, Earnings)> {
        self@.earnings_reports
    }

    open spec fn updated(&self, after: Holdings, index: u64, item: Earnings, changed: bool) -> bool {
        &&& pushed(self@.earnings_reports, after.earnings_reports, index, item, changed)
        &&& after == Holdings { earnings_reports: after.earnings_reports, ..self@ }
    }

    open spec fn kind_of(&self) -> NodeKind {
        NodeKind::Company
    }

    fn update(&mut self, index: u64, item: Earnings) -> (r: bool) {
        self.earnings.push(index, item)
    }

    fn empty(&self) -> (r: bool) {
        self.earnings.empty()
    }

    fn to_vec(&self) -> (r: Vec<&Earnings>) {
        self.earnings.to_vec()
    }

    fn first(&self) -> (r: Option<&Earnings>) {
        self.earnings.first()
    }

    fn last(&self) -> (r: Option<&Earnings>) {
        self.earnings.last()
    }

    fn between(&self, start: u64, end: u64) -> (r: Option<Vec<&Earnings>>) {
        self.earnings.between(&start, &end)
    }

    fn as_any_mute(&mut self) -> (r: AnyNodeMut<'_>) {
        AnyNodeMut::Company(self)
    }
}

/// The write-only multiplexer of a company's statements: `update` routes each
/// statement to the series of its kind and reports that series' change; reads are
/// not served, since no single series answers them.
impl DynamicNode<FinancialStatement> for Company {
    open spec fn holdings(&self) -> Holdings {
        self@
    }

    open spec fn readable(&self) -> bool {
        false
    }

    open spec fn series(&self) -> Seq<(u64, FinancialStatement)> {
        Seq::empty()
    }

    open spec fn updated(&self, after: Holdings, index: u64, item: FinancialStatement, changed: bool) -> bool {
        match item {
            FinancialStatement::IncomeStatement(x) => {
                &&& pushed(self@.income_statements, after.income_statements, index, x, changed)
                &&& after == Holdings { income_statements: after.income_statements, ..self@ }
            },
            FinancialStatement::BalanceSheet(x) => {
                &&& pushed(self@.balance_sheets, after.balance_sheets, index, x, changed)
                &&& after == Holdings { balance_sheets: after.balance_sheets, ..self@ }
            },
            FinancialStatement::CashFlow(x) => {
                &&& pushed(self@.cash_flows, after.cash_flows, index, x, changed)
                &&& after == Holdings { cash_flows: after.cash_flows, ..self@ }
            },
            FinancialStatement::Earnings(x) => {
                &&& pushed(self@.earnings_reports, after.earnings_reports, index, x, changed)
                &&& after == Holdings { earnings_reports: after.earnings_reports, ..self@ }
            },
        }
    }

    open spec fn kind_of(&self) -> NodeKind {
        NodeKind::Company
    }

    fn update(&mut self, index: u64, item: FinancialStatement) -> (r: bool) {
        match item {
            FinancialStatement::IncomeStatement(x) => self.income_statement.push(index, x),
            FinancialStatement::BalanceSheet(x) => self.balance_sheet.push(index, x),
            FinancialStatement::CashFlow(x) => self.cash_flow.push(index, x),
            FinancialStatement::Earnings(x) => self.earnings.push(index, x),
        }
    }

    fn empty(&self) -> (r: bool) {
        false
    }

    fn to_vec(&self) -> (r: Vec<&FinancialStatement>) {
        Vec::new()
    }

    fn first(&self) -> (r: Option<&FinancialStatement>) {
        None
    }

    fn last(&self) -> (r: Option<&FinancialStatement>) {
        None
    }

    fn between(&self, start: u64, end: u64) -> (r: Option<Vec<&FinancialStatement>>) {
        None
    }

    fn as_any_mute(&mut self) -> (r: AnyNodeMut<'_>) {
        AnyNodeMut::Company(self)
    }
}

/// Multiplexer asymmetry: a statement sent through a company's dispatch binding, at an
/// index that the series of its kind does not hold yet, is stored in that series (the
/// update reports a change, and the binding of that kind now holds the index), the
/// other three series are left as they were, and the dispatch binding still serves no
/// reads.
pub proof fn lemma_dispatch_routes(
    before: &Company,
    after: &Company,
    index: u64,
    item: FinancialStatement,
    changed: bool,
)
    requires
        DynamicNode::<FinancialStatement>::updated(before, after@, index, item, changed),
        match item {
            FinancialStatement::IncomeStatement(_) => !holds_index(DynamicNode::<IncomeStatement>::series(before), index),
            FinancialStatement::BalanceSheet(_) => !holds_index(DynamicNode::<BalanceSheet>::series(before), index),
            FinancialStatement::CashFlow(_) => !holds_index(DynamicNode::<CashFlow>::series(before), index),
            FinancialStatement::Earnings(_) => !holds_index(DynamicNode::<Earnings>::series(before), index),
        },
    ensures
        changed,
        match item {
            FinancialStatement::IncomeStatement(_) => holds_index(DynamicNode::<IncomeStatement>::series(after), index),
            FinancialStatement::BalanceSheet(_) => holds_index(DynamicNode::<BalanceSheet>::series(after), index),
            FinancialStatement::CashFlow(_) => holds_index(DynamicNode::<CashFlow>::series(after), index),
            FinancialStatement::Earnings(_) => holds_index(DynamicNode::<Earnings>::series(after), index),
        },
        !DynamicNode::<FinancialStatement>::readable(after),
        DynamicNode::<FinancialStatement>::series(after).len() == 0,
{
    match item {
        FinancialStatement::IncomeStatement(x) => {
            lemma_pushed_holds(before@.income_statements, after@.income_statements, index, x, changed);
        },
        FinancialStatement::BalanceSheet(x) => {
            lemma_pushed_holds(before@.balance_sheets, after@.balance_sheets, index, x, changed);
        },
        FinancialStatement::CashFlow(x) => {
            lemma_pushed_holds(before@.cash_flows, after@.cash_flows, index, x, changed);
        },
        FinancialStatement::Earnings(x) => {
            lemma_pushed_holds(before@.earnings_reports, after@.earnings_reports, index, x, changed);
        },
    }
}

/// Type recovery: a handle obtained from a currency is tagged as a currency, so the
/// downcast to `Currency` succeeds and the downcast to any other kind fails, and what
/// it reaches carries the currency's name and price series.
pub proof fn lemma_currency_recovered(c: &Currency, h: &AnyNodeMut)
    requires
        h.kind_spec() == DynamicNode::<PriceAggregate>::kind_of(c),
        h.holdings_spec() == DynamicNode::<PriceAggregate>::holdings(c),
    ensures
        h.holdings_spec().name == c.name_spec(),
        h.holdings_spec().prices == DynamicNode::<PriceAggregate>::series(c),
        h.kind_spec() == NodeKind::Currency,
        h.kind_spec() != NodeKind::Equity,
        h.kind_spec() != NodeKind::Bonds,
        h.kind_spec() != NodeKind::Publisher,
        h.kind_spec() != NodeKind::Options,
        h.kind_spec() != NodeKind::Company,
{
}

} // verus!
