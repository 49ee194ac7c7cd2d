use vstd::prelude::*;

use crate::series::{strictly_sorted, Series};

verus! {

/// Identity every entity of the graph carries: a stable name and a class tag.
pub trait StaticNode {
    spec fn name_spec(&self) -> Seq<char>;

    spec fn cls_spec(&self) -> Seq<char>;

    fn name(&self) -> (r: &str)
        ensures
            r@ == self.name_spec(),
    ;

    fn cls(&self) -> (r: &str)
        ensures
            r@ == self.cls_spec(),
    ;
}

/// One bar of prices over an interval, in minor currency units.
#[derive(Clone, Copy, Debug, PartialEq, Eq, Structural)]
pub struct PriceAggregate {
    pub open: i64,
    pub high: i64,
    pub low: i64,
    pub close: i64,
    pub volume: u64,
}

/// One bar of option prices over an interval, in minor currency units.
#[derive(Clone, Copy, Debug, PartialEq, Eq, Structural)]
pub struct OptionsAggregate {
    pub open: i64,
    pub high: i64,
    pub low: i64,
    pub close: i64,
    pub volume: u64,
    pub open_interest: u64,
}

#[derive(Clone, Copy, Debug, PartialEq, Eq, Structural)]
pub struct IncomeStatement {
    pub revenue: i64,
    pub net_income: i64,
}

#[derive(Clone, Copy, Debug, PartialEq, Eq, Structural)]
pub struct BalanceSheet {
    pub total_assets: i64,
    pub total_liabilities: i64,
}

#[derive(Clone, Copy, Debug, PartialEq, Eq, Structural)]
pub struct CashFlow {
    pub operating: i64,
    pub investing: i64,
    pub financing: i64,
}

#[derive(Clone, Copy, Debug, PartialEq, Eq, Structural)]
pub struct Earnings {
    pub reported_eps: i64,
    pub estimated_eps: i64,
}

/// Any of a company's statements, tagged by kind.
#[derive(Clone, Copy, Debug, PartialEq, Eq, Structural)]
pub enum FinancialStatement {
    IncomeStatement(IncomeStatement),
    BalanceSheet(BalanceSheet),
    CashFlow(CashFlow),
    Earnings(Earnings),
}

/// What an entity holds, as spec values: its name and one listing per kind of series,
/// each in ascending index order. A kind of series that the entity does not keep
/// stays empty.
pub struct Holdings {
    pub name: Seq<char>,
    pub sentiments: Seq<(u64, i64)>,
    pub prices: Seq<(u64, PriceAggregate)>,
    pub options: Seq<(u64, OptionsAggregate)>,
    pub income_statements: Seq<(u64, IncomeStatement)>,
    pub balance_sheets: Seq<(u64, BalanceSheet)>,
    pub cash_flows: Seq<(u64, CashFlow)>,
    pub earnings_reports: Seq<(u64, Earnings)>,
}

impl Holdings {
    /// An entity called `name` that holds no observations yet.
    pub open spec fn named(name: Seq<char>) -> Holdings {
        Holdings {
            name,
            sentiments: Seq::empty(),
            prices: Seq::empty(),
            options: Seq::empty(),
            income_statements: Seq::empty(),
            balance_sheets: Seq::empty(),
            cash_flows: Seq::empty(),
            earnings_reports: Seq::empty(),
        }
    }

    /// Every listing has strictly ascending indices.
    pub open spec fn wf(&self) -> bool {
        &&& strictly_sorted(self.sentiments)
        &&& strictly_sorted(self.prices)
        &&& strictly_sorted(self.options)
        &&& strictly_sorted(self.income_statements)
        &&& strictly_sorted(self.balance_sheets)
        &&& strictly_sorted(self.cash_flows)
        &&& strictly_sorted(self.earnings_reports)
    }
}

/// A source of articles, with the sentiment of what it publishes over time
/// (a score in millionths: `-300_000` is -0.3).
pub struct Publisher {
    pub(crate) name: String,
    pub(crate) sentiments: Series<i64>,
}

pub struct Currency {
    pub(crate) name: String,
    pub(crate) history: Series<PriceAggregate>,
}

pub struct Equity {
    pub(crate) name: String,
    pub(crate) history: Series<PriceAggregate>,
}

pub struct Bonds {
    pub(crate) name: String,
    pub(crate) history: Series<PriceAggregate>,
}

pub struct Options {
    pub(crate) name: String,
    pub(crate) history: Series<OptionsAggregate>,
}

/// A company, with one series per kind of financial statement.
pub struct Company {
    pub(crate) name: String,
    pub(crate) income_statement: Series<IncomeStatement>,
    pub(crate) balance_sheet: Series<BalanceSheet>,
    pub(crate) cash_flow: Series<CashFlow>,
    pub(crate) earnings: Series<Earnings>,
}

/// A published article.
pub struct Article {
    pub(crate) name: String,
}

/// An event that articles may mention.
pub struct StaticEvent {
    pub(crate) name: String,
}

impl View for Publisher {
    type V = Holdings;

    open(crate) spec fn view(&self) -> Holdings {
        Holdings { sentiments: self.sentiments.entries(), ..Holdings::named(self.name@) }
    }
}

impl View for Currency {
    type V = Holdings;

    open(crate) spec fn view(&self) -> Holdings {
        Holdings { prices: self.history.entries(), ..Holdings::named(self.name@) }
    }
}

impl View for Equity {
    type V = Holdings;

    open(crate) spec fn view(&self) -> Holdings {
        Holdings { prices: self.history.entries(), ..Holdings::named(self.name@) }
    }
}

impl View for Bonds {
    type V = Holdings;

    open(crate) spec fn view(&self) -> Holdings {
        Holdings { prices: self.history.entries(), ..Holdings::named(self.name@) }
    }
}

impl View for Options {
    type V = Holdings;

    open(crate) spec fn view(&self) -> Holdings {
        Holdings { options: self.history.entries(), ..Holdings::named(self.name@) }
    }
}

impl View for Company {
    type V = Holdings;

    open(crate) spec fn view(&self) -> Holdings {
        Holdings {
            income_statements: self.income_statement.entries(),
            balance_sheets: self.balance_sheet.entries(),
            cash_flows: self.cash_flow.entries(),
            earnings_reports: self.earnings.entries(),
            ..Holdings::named(self.name@)
        }
    }
}

impl Publisher {
    pub fn new(name: String) -> (r: Publisher)
        ensures
            r@ == Holdings::named(name@),
    {
        Publisher { name, sentiments: Series::new() }
    }
}

impl Currency {
    pub fn new(name: String) -> (r: Currency)
        ensures
            r@ == Holdings::named(name@),
    {
        Currency { name, history: Series::new() }
    }
}

impl Equity {
    pub fn new(name: String) -> (r: Equity)
        ensures
            r@ == Holdings::named(name@),
    {
        Equity { name, history: Series::new() }
    }
}

impl Bonds {
    pub fn new(name: String) -> (r: Bonds)
        ensures
            r@ == Holdings::named(name@),
    {
        Bonds { name, history: Series::new() }
    }
}

impl Options {
    pub fn new(name: String) -> (r: Options)
        ensures
            r@ == Holdings::named(name@),
    {
        Options { name, history: Series::new() }
    }
}

impl Company {
    pub fn new(name: String) -> (r: Company)
        ensures
            r.name_spec() == name@,
            r@ == Holdings::named(name@),
    {
        Company {
            name,
            income_statement: Series::new(),
            balance_sheet: Series::new(),
            cash_flow: Series::new(),
            earnings: Series::new(),
        }
    }
}

impl Article {
    pub fn new(name: String) -> (r: Article)
        ensures
            r.name_spec() == name@,
    {
        Article { name }
    }
}

impl StaticEvent {
    pub fn new(name: String) -> (r: StaticEvent)
        ensures
            r.name_spec() == name@,
    {
        StaticEvent { name }
    }
}

impl StaticNode for Publisher {
    open(crate) spec fn name_spec(&self) -> Seq<char> {
        self.name@
    }

    open spec fn cls_spec(&self) -> Seq<char> {
        "Publisher"@
    }

    fn name(&self) -> (r: &str) {
        self.name.as_str()
    }

    fn cls(&self) -> (r: &str) {
        "Publisher"
    }
}

impl StaticNode for Currency {
    open(crate) spec fn name_spec(&self) -> Seq<char> {
        self.name@
    }

    open spec fn cls_spec(&self) -> Seq<char> {
        "Currency"@
    }

    fn name(&self) -> (r: &str) {
        self.name.as_str()
    }

    fn cls(&self) -> (r: &str) {
        "Currency"
    }
}

impl StaticNode for Equity {
    open(crate) spec fn name_spec(&self) -> Seq<char> {
        self.name@
    }

    open spec fn cls_spec(&self) -> Seq<char> {
        "Equity"@
    }

    fn name(&self) -> (r: &str) {
        self.name.as_str()
    }

    fn cls(&self) -> (r: &str) {
        "Equity"
    }
}

impl StaticNode for Bonds {
    open(crate) spec fn name_spec(&self) -> Seq<char> {
        self.name@
    }

    open spec fn cls_spec(&self) -> Seq<char> {
        "Bonds"@
    }

    fn name(&self) -> (r: &str) {
        self.name.as_str()
    }

    fn cls(&self) -> (r: &str) {
        "Bonds"
    }
}

impl StaticNode for Options {
    open(crate) spec fn name_spec(&self) -> Seq<char> {
        self.name@
    }

    open spec fn cls_spec(&self) -> Seq<char> {
        "Options"@
    }

    fn name(&self) -> (r: &str) {
        self.name.as_str()
    }

    fn cls(&self) -> (r: &str) {
        "Options"
    }
}

impl StaticNode for Company {
    open(crate) spec fn name_spec(&self) -> Seq<char> {
        self.name@
    }

    open spec fn cls_spec(&self) -> Seq<char> {
        "Company"@
    }

    fn name(&self) -> (r: &str) {
        self.name.as_str()
    }

    fn cls(&self) -> (r: &str) {
        "Company"
    }
}

impl StaticNode for Article {
    open(crate) spec fn name_spec(&self) -> Seq<char> {
        self.name@
    }

    open spec fn cls_spec(&self) -> Seq<char> {
        "Article"@
    }

    fn name(&self) -> (r: &str) {
        self.name.as_str()
    }

    fn cls(&self) -> (r: &str) {
        "Article"
    }
}

impl StaticNode for StaticEvent {
    open(crate) spec fn name_spec(&self) -> Seq<char> {
        self.name@
    }

    open spec fn cls_spec(&self) -> Seq<char> {
        "Event"@
    }

    fn name(&self) -> (r: &str) {
        self.name.as_str()
    }

    fn cls(&self) -> (r: &str) {
        "Event"
    }
}

/// The concrete kind of an entity that carries series.
#[derive(Clone, Copy, Debug, PartialEq, Eq, Structural)]
pub enum NodeKind {
    Publisher,
    Currency,
    Equity,
    Bonds,
    Options,
    Company,
}

/// A mutable handle on an entity, tagged by its concrete kind, through which a caller
/// that only knew the entity as a series holder gets the concrete entity back.
pub enum AnyNodeMut<'a> {
    Publisher(&'a mut Publisher),
    Currency(&'a mut Currency),
    Equity(&'a mut Equity),
    Bonds(&'a mut Bonds),
    Options(&'a mut Options),
    Company(&'a mut Company),
}

impl<'a> AnyNodeMut<'a> {
    pub open spec fn kind_spec(&self) -> NodeKind {
        match self {
            AnyNodeMut::Publisher(_) => NodeKind::Publisher,
            AnyNodeMut::Currency(_) => NodeKind::Currency,
            AnyNodeMut::Equity(_) => NodeKind::Equity,
            AnyNodeMut::Bonds(_) => NodeKind::Bonds,
            AnyNodeMut::Options(_) => NodeKind::Options,
            AnyNodeMut::Company(_) => NodeKind::Company,
        }
    }

    /// What the entity behind the handle holds.
    pub open spec fn holdings_spec(&self) -> Holdings {
        match self {
            AnyNodeMut::Publisher(e) => (**e)@,
            AnyNodeMut::Currency(e) => (**e)@,
            AnyNodeMut::Equity(e) => (**e)@,
            AnyNodeMut::Bonds(e) => (**e)@,
            AnyNodeMut::Options(e) => (**e)@,
            AnyNodeMut::Company(e) => (**e)@,
        }
    }

    pub fn kind(&self) -> (r: NodeKind)
        ensures
            r == self.kind_spec(),
    {
        match self {
            AnyNodeMut::Publisher(_) => NodeKind::Publisher,
            AnyNodeMut::Currency(_) => NodeKind::Currency,
            AnyNodeMut::Equity(_) => NodeKind::Equity,
            AnyNodeMut::Bonds(_) => NodeKind::Bonds,
            AnyNodeMut::Options(_) => NodeKind::Options,
            AnyNodeMut::Company(_) => NodeKind::Company,
        }
    }


    /// The handle as a `Publisher`; `None` when the entity is of another kind.
    pub fn downcast_publisher(self) -> (r: Option<&'a mut Publisher>)
        ensures
            r.is_some() == (self.kind_spec() == NodeKind::Publisher),
            self matches AnyNodeMut::Publisher(e) ==> *r.unwrap() == *e,
    {
        match self {
            AnyNodeMut::Publisher(e) => Some(e),
            _ => None,
        }
    }


    /// The handle as a `Currency`; `None` when the entity is of another kind.
    pub fn downcast_currency(self) -> (r: Option<&'a mut Currency>)
        ensures
            r.is_some() == (self.kind_spec() == NodeKind::Currency),
            self matches AnyNodeMut::Currency(e) ==> *r.unwrap() == *e,
    {
        match self {
            AnyNodeMut::Currency(e) => Some(e),
            _ => None,
        }
    }


    /// The handle as a `Equity`; `None` when the entity is of another kind.
    pub fn downcast_equity(self) -> (r: Option<&'a mut Equity>)
        ensures
            r.is_some() == (self.kind_spec() == NodeKind::Equity),
            self matches AnyNodeMut::Equity(e) ==> *r.unwrap() == *e,
    {
        match self {
            AnyNodeMut::Equity(e) => Some(e),
            _ => None,
        }
    }


    /// The handle as a `Bonds`; `None` when the entity is of another kind.
    pub fn downcast_bonds(self) -> (r: Option<&'a mut Bonds>)
        ensures
            r.is_some() == (self.kind_spec() == NodeKind::Bonds),
            self matches AnyNodeMut::Bonds(e) ==> *r.unwrap() == *e,
    {
        match self {
            AnyNodeMut::Bonds(e) => Some(e),
            _ => None,
        }
    }


    /// The handle as a `Options`; `None` when the entity is of another kind.
    pub fn downcast_options(self) -> (r: Option<&'a mut Options>)
        ensures
            r.is_some() == (self.kind_spec() == NodeKind::Options),
            self matches AnyNodeMut::Options(e) ==> *r.unwrap() == *e,
    {
        match self {
            AnyNodeMut::Options(e) => Some(e),
            _ => None,
        }
    }


    /// The handle as a `Company`; `None` when the entity is of another kind.
    pub fn downcast_company(self) -> (r: Option<&'a mut Company>)
        ensures
            r.is_some() == (self.kind_spec() == NodeKind::Company),
            self matches AnyNodeMut::Company(e) ==> *r.unwrap() == *e,
    {
        match self {
            AnyNodeMut::Company(e) => Some(e),
            _ => None,
        }
    }

}

} // verus!
