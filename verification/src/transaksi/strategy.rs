//! Ways of ordering a list of sales transactions and of searching it for a
//! keyword.

use std::cmp::Ordering;
use vstd::prelude::*;
use vstd::string::*;
use crate::text::{
    contains, is_substring, le, lowercase_text, signed_decimal, signed_decimal_text, text_le,
    to_lowercase,
};
use crate::transaksi::model::{transaksi_views, Transaksi, TransaksiView};

verus! {

/// By what, and in which direction, a list is ordered.
#[derive(Debug, Clone, Copy, PartialEq, Eq, Structural)]
pub enum SortKey {
    DateAsc,
    DateDesc,
    TotalAsc,
    TotalDesc,
    CustomerAsc,
    Status,
}

/// Whether one transaction may stand before another in a list ordered by
/// a key. Dates, customer names and status codes are compared as texts.
pub open spec fn goes_before(key: SortKey, a: TransaksiView, b: TransaksiView) -> bool {
    match key {
        SortKey::DateAsc => text_le(a.tanggal_transaksi, b.tanggal_transaksi),
        SortKey::DateDesc => text_le(b.tanggal_transaksi, a.tanggal_transaksi),
        SortKey::TotalAsc => a.total_harga <= b.total_harga,
        SortKey::TotalDesc => b.total_harga <= a.total_harga,
        SortKey::CustomerAsc => text_le(a.nama_pelanggan, b.nama_pelanggan),
        SortKey::Status => text_le(a.status.code(), b.status.code()),
    }
}

/// Whether `from` says where each item of `output` stood in `input`: the
/// two lists hold the same items, each once.
pub open spec fn arranges(from: Seq<int>, input: Seq<Transaksi>, output: Seq<Transaksi>) -> bool {
    &&& from.len() == input.len()
    &&& output.len() == input.len()
    &&& from.no_duplicates()
    &&& forall|i: int|
        0 <= i < output.len() ==> 0 <= #[trigger] from[i] < input.len() && output[i] == input[from[i]]
}

/// Whether `output` is `input` ordered by a key: it holds the same items,
/// each may stand before all that follow it, and items that may stand on
/// either side of one another keep the order that they had.
pub open spec fn is_sorting(input: Seq<Transaksi>, output: Seq<Transaksi>, key: SortKey) -> bool {
    exists|from: Seq<int>|
        #[trigger] arranges(from, input, output) && forall|i: int, j: int|
            0 <= i < j < output.len() ==> goes_before(key, (#[trigger] output[i])@, (#[trigger] output[j])@)
                && (goes_before(key, output[j]@, output[i]@) ==> from[i] < from[j])
}

/// Tests whether one transaction may stand before another under a key.
pub fn precedes(key: SortKey, a: &Transaksi, b: &Transaksi) -> (r: bool)
    ensures
        r == goes_before(key, a@, b@),
{
    match key {
        SortKey::DateAsc => le(a.tanggal_transaksi.as_str(), b.tanggal_transaksi.as_str()),
        SortKey::DateDesc => le(b.tanggal_transaksi.as_str(), a.tanggal_transaksi.as_str()),
        SortKey::TotalAsc => a.total_harga <= b.total_harga,
        SortKey::TotalDesc => b.total_harga <= a.total_harga,
        SortKey::CustomerAsc => le(a.nama_pelanggan.as_str(), b.nama_pelanggan.as_str()),
        SortKey::Status => le(a.status.to_string().as_str(), b.status.to_string().as_str()),
    }
}

/// Compares two transactions under a key.
pub fn order(key: SortKey, a: &Transaksi, b: &Transaksi) -> (r: Ordering)
    ensures
        (r == Ordering::Less) == (goes_before(key, a@, b@) && !goes_before(key, b@, a@)),
        (r == Ordering::Equal) == (goes_before(key, a@, b@) && goes_before(key, b@, a@)),
{
    if precedes(key, a, b) {
        if precedes(key, b, a) {
            Ordering::Equal
        } else {
            Ordering::Less
        }
    } else {
        Ordering::Greater
    }
}

/// Calls `sort_by` of the standard library with `order` as the comparison.
/// The standard library documents that the result is in ascending order of
/// the comparison and that items that compare equal keep their order.
#[verifier::external_body]
fn sort_by_key(list: Vec<Transaksi>, key: SortKey) -> (r: Vec<Transaksi>)
    ensures
        is_sorting(list@, r@, key),
{
    let mut list = list;
    list.sort_by(|a, b| order(key, a, b));
    list
}

/// A way of ordering a list of transactions.
pub trait SortingStrategy {
    /// The key by which this strategy orders.
    spec fn key(&self) -> SortKey;

    fn sort(&self, transaksi_list: Vec<Transaksi>) -> (r: Vec<Transaksi>)
        ensures
            is_sorting(transaksi_list@, r@, self.key()),
    ;

    fn get_name(&self) -> (r: &'static str)
        ensures
            r@ == name_of(self.key()),
    ;
}

/// The name of the strategy for a key.
pub open spec fn name_of(key: SortKey) -> Seq<char> {
    match key {
        SortKey::DateAsc => "date_asc"@,
        SortKey::DateDesc => "date_desc"@,
        SortKey::TotalAsc => "total_asc"@,
        SortKey::TotalDesc => "total_desc"@,
        SortKey::CustomerAsc => "customer_asc"@,
        SortKey::Status => "status"@,
    }
}

/// The name of the strategy for a key.
fn sort_name(key: SortKey) -> (r: &'static str)
    ensures
        r@ == name_of(key),
{
    match key {
        SortKey::DateAsc => "date_asc",
        SortKey::DateDesc => "date_desc",
        SortKey::TotalAsc => "total_asc",
        SortKey::TotalDesc => "total_desc",
        SortKey::CustomerAsc => "customer_asc",
        SortKey::Status => "status",
    }
}

pub struct SortByDate;

pub struct SortByDateDesc;

pub struct SortByTotal;

pub struct SortByTotalDesc;

pub struct SortByCustomer;

pub struct SortByStatus;

impl SortingStrategy for SortByDate {
    open spec fn key(&self) -> SortKey {
        SortKey::DateAsc
    }

    fn sort(&self, transaksi_list: Vec<Transaksi>) -> (r: Vec<Transaksi>) {
        sort_by_key(transaksi_list, SortKey::DateAsc)
    }

    fn get_name(&self) -> (r: &'static str) {
        sort_name(SortKey::DateAsc)
    }
}

impl SortingStrategy for SortByDateDesc {
    open spec fn key(&self) -> SortKey {
        SortKey::DateDesc
    }

    fn sort(&self, transaksi_list: Vec<Transaksi>) -> (r: Vec<Transaksi>) {
        sort_by_key(transaksi_list, SortKey::DateDesc)
    }

    fn get_name(&self) -> (r: &'static str) {
        sort_name(SortKey::DateDesc)
    }
}

impl SortingStrategy for SortByTotal {
    open spec fn key(&self) -> SortKey {
        SortKey::TotalAsc
    }

    fn sort(&self, transaksi_list: Vec<Transaksi>) -> (r: Vec<Transaksi>) {
        sort_by_key(transaksi_list, SortKey::TotalAsc)
    }

    fn get_name(&self) -> (r: &'static str) {
        sort_name(SortKey::TotalAsc)
    }
}

impl SortingStrategy for SortByTotalDesc {
    open spec fn key(&self) -> SortKey {
        SortKey::TotalDesc
    }

    fn sort(&self, transaksi_list: Vec<Transaksi>) -> (r: Vec<Transaksi>) {
        sort_by_key(transaksi_list, SortKey::TotalDesc)
    }

    fn get_name(&self) -> (r: &'static str) {
        sort_name(SortKey::TotalDesc)
    }
}

impl SortingStrategy for SortByCustomer {
    open spec fn key(&self) -> SortKey {
        SortKey::CustomerAsc
    }

    fn sort(&self, transaksi_list: Vec<Transaksi>) -> (r: Vec<Transaksi>) {
        sort_by_key(transaksi_list, SortKey::CustomerAsc)
    }

    fn get_name(&self) -> (r: &'static str) {
        sort_name(SortKey::CustomerAsc)
    }
}

impl SortingStrategy for SortByStatus {
    open spec fn key(&self) -> SortKey {
        SortKey::Status
    }

    fn sort(&self, transaksi_list: Vec<Transaksi>) -> (r: Vec<Transaksi>) {
        sort_by_key(transaksi_list, SortKey::Status)
    }

    fn get_name(&self) -> (r: &'static str) {
        sort_name(SortKey::Status)
    }
}

/// Any one of the sorting strategies.
pub enum AnySort {
    Date(SortByDate),
    DateDesc(SortByDateDesc),
    Total(SortByTotal),
    TotalDesc(SortByTotalDesc),
    Customer(SortByCustomer),
    Status(SortByStatus),
}

impl AnySort {
    /// The key of the strategy held.
    pub fn sort_key(&self) -> (r: SortKey)
        ensures
            r == self.key(),
    {
        match self {
            AnySort::Date(_) => SortKey::DateAsc,
            AnySort::DateDesc(_) => SortKey::DateDesc,
            AnySort::Total(_) => SortKey::TotalAsc,
            AnySort::TotalDesc(_) => SortKey::TotalDesc,
            AnySort::Customer(_) => SortKey::CustomerAsc,
            AnySort::Status(_) => SortKey::Status,
        }
    }
}

impl SortingStrategy for AnySort {
    open spec fn key(&self) -> SortKey {
        match self {
            AnySort::Date(_) => SortKey::DateAsc,
            AnySort::DateDesc(_) => SortKey::DateDesc,
            AnySort::Total(_) => SortKey::TotalAsc,
            AnySort::TotalDesc(_) => SortKey::TotalDesc,
            AnySort::Customer(_) => SortKey::CustomerAsc,
            AnySort::Status(_) => SortKey::Status,
        }
    }

    fn sort(&self, transaksi_list: Vec<Transaksi>) -> (r: Vec<Transaksi>) {
        sort_by_key(transaksi_list, self.sort_key())
    }

    fn get_name(&self) -> (r: &'static str) {
        sort_name(self.sort_key())
    }
}

/// The key that a lower-case name of an ordering stands for. A name that
/// is not known stands for the latest date first.
pub open spec fn sort_key_of(name: Seq<char>) -> SortKey {
    if name == "tanggal"@ || name == "tanggal_transaksi"@ || name == "date_asc"@ {
        SortKey::DateAsc
    } else if name == "tanggal_desc"@ || name == "date_desc"@ {
        SortKey::DateDesc
    } else if name == "total"@ || name == "total_harga"@ || name == "total_asc"@ {
        SortKey::TotalAsc
    } else if name == "total_desc"@ {
        SortKey::TotalDesc
    } else if name == "pelanggan"@ || name == "nama_pelanggan"@ || name == "customer"@ {
        SortKey::CustomerAsc
    } else if name == "status"@ {
        SortKey::Status
    } else {
        SortKey::DateDesc
    }
}

/// The names of the sorting strategies.
pub open spec fn available_strategies() -> Seq<Seq<char>> {
    seq!["date_asc"@, "date_desc"@, "total_asc"@, "total_desc"@, "customer_asc"@, "status"@]
}

/// The characters of each text of a list, in order.
pub open spec fn str_views(list: Seq<&'static str>) -> Seq<Seq<char>> {
    Seq::new(list.len(), |i: int| list[i]@)
}

/// Makes the sorting strategy for a name.
pub struct SortingStrategyFactory;

impl SortingStrategyFactory {
    /// The strategy that a name stands for, whatever the case of its
    /// letters.
    pub fn create(sort_type: &str) -> (r: AnySort)
        ensures
            r.key() == sort_key_of(lowercase_text(sort_type@)),
    {
        let lower = to_lowercase(sort_type);
        let name = lower.as_str();
        if name.eq("tanggal") || name.eq("tanggal_transaksi") || name.eq("date_asc") {
            AnySort::Date(SortByDate)
        } else if name.eq("tanggal_desc") || name.eq("date_desc") {
            AnySort::DateDesc(SortByDateDesc)
        } else if name.eq("total") || name.eq("total_harga") || name.eq("total_asc") {
            AnySort::Total(SortByTotal)
        } else if name.eq("total_desc") {
            AnySort::TotalDesc(SortByTotalDesc)
        } else if name.eq("pelanggan") || name.eq("nama_pelanggan") || name.eq("customer") {
            AnySort::Customer(SortByCustomer)
        } else if name.eq("status") {
            AnySort::Status(SortByStatus)
        } else {
            AnySort::DateDesc(SortByDateDesc)
        }
    }

    /// The names of all the sorting strategies.
    pub fn get_available_strategies() -> (r: Vec<&'static str>)
        ensures
            str_views(r@) == available_strategies(),
    {
        let r = vec!["date_asc", "date_desc", "total_asc", "total_desc", "customer_asc", "status"];
        assert(str_views(r@) =~= available_strategies());
        r
    }
}

/// Where a keyword is looked for.
#[derive(Debug, Clone, Copy, PartialEq, Eq, Structural)]
pub enum FilterField {
    Customer,
    Status,
    Note,
    All,
}

/// Whether a text holds a keyword, whatever the case of the letters of
/// either.
pub open spec fn holds(text: Seq<char>, keyword: Seq<char>) -> bool {
    is_substring(lowercase_text(text), lowercase_text(keyword))
}

/// Whether the note of a transaction holds a keyword. A transaction
/// without a note holds none.
pub open spec fn note_holds(t: TransaksiView, keyword: Seq<char>) -> bool {
    match t.catatan {
        Some(c) => holds(c, keyword),
        None => false,
    }
}

/// Whether a transaction is kept by a search for a keyword in a field. A
/// search in all fields looks at the customer name, the status, the note,
/// and the id as it is printed.
pub open spec fn keeps(field: FilterField, t: TransaksiView, keyword: Seq<char>) -> bool {
    match field {
        FilterField::Customer => holds(t.nama_pelanggan, keyword),
        FilterField::Status => holds(t.status.code(), keyword),
        FilterField::Note => note_holds(t, keyword),
        FilterField::All => holds(t.nama_pelanggan, keyword) || holds(t.status.code(), keyword)
            || is_substring(signed_decimal_text(t.id), lowercase_text(keyword)) || note_holds(
            t,
            keyword,
        ),
    }
}

/// The transactions among the first `n` of a list that a search keeps, in
/// their order.
pub open spec fn kept(list: Seq<TransaksiView>, field: FilterField, keyword: Seq<char>, n: nat) -> Seq<
    TransaksiView,
>
    decreases n,
{
    if n == 0 {
        Seq::empty()
    } else {
        let before = kept(list, field, keyword, (n - 1) as nat);
        if keeps(field, list[n - 1], keyword) {
            before.push(list[n - 1])
        } else {
            before
        }
    }
}

/// Tests whether a text holds a keyword that is already in lower case.
fn text_holds(text: &str, lower_keyword: &str) -> (r: bool)
    ensures
        r == is_substring(lowercase_text(text@), lower_keyword@),
{
    contains(to_lowercase(text).as_str(), lower_keyword)
}

/// Tests whether a search keeps a transaction; the keyword is already in
/// lower case.
fn keeps_item(field: FilterField, t: &Transaksi, lower_keyword: &str, keyword: Ghost<Seq<char>>) -> (r: bool)
    requires
        lower_keyword@ == lowercase_text(keyword@),
    ensures
        r == keeps(field, t@, keyword@),
{
    let note = match &t.catatan {
        Some(c) => text_holds(c.as_str(), lower_keyword),
        None => false,
    };
    match field {
        FilterField::Customer => text_holds(t.nama_pelanggan.as_str(), lower_keyword),
        FilterField::Status => text_holds(t.status.to_string().as_str(), lower_keyword),
        FilterField::Note => note,
        FilterField::All => text_holds(t.nama_pelanggan.as_str(), lower_keyword) || text_holds(
            t.status.to_string().as_str(),
            lower_keyword,
        ) || contains(signed_decimal(t.id).as_str(), lower_keyword) || note,
    }
}

/// Keeps the transactions that hold a keyword in a field, in their order.
pub fn filter_by(field: FilterField, list: Vec<Transaksi>, keyword: &str) -> (r: Vec<Transaksi>)
    ensures
        transaksi_views(r@) == kept(transaksi_views(list@), field, keyword@, list.len() as nat),
{
    let lower = to_lowercase(keyword);
    let ghost views = transaksi_views(list@);
    let mut out: Vec<Transaksi> = Vec::new();
    let mut i: usize = 0;
    assert(transaksi_views(out@) =~= kept(views, field, keyword@, 0));
    while i < list.len()
        invariant
            i <= list.len(),
            views == transaksi_views(list@),
            lower@ == lowercase_text(keyword@),
            transaksi_views(out@) == kept(views, field, keyword@, i as nat),
        decreases list.len() - i,
    {
        assert(views[i as int] == list[i as int]@);
        let ghost before = transaksi_views(out@);
        if keeps_item(field, &list[i], lower.as_str(), Ghost(keyword@)) {
            out.push(list[i].clone());
            assert(transaksi_views(out@) =~= before.push(views[i as int]));
        }
        i += 1;
    }
    out
}

/// A way of searching a list of transactions for a keyword.
pub trait FilteringStrategy {
    /// The field in which this strategy looks.
    spec fn field(&self) -> FilterField;

    fn filter(&self, transaksi_list: Vec<Transaksi>, keyword: &str) -> (r: Vec<Transaksi>)
        ensures
            transaksi_views(r@) == kept(
                transaksi_views(transaksi_list@),
                self.field(),
                keyword@,
                transaksi_list.len() as nat,
            ),
    ;

    fn get_name(&self) -> (r: &'static str)
        ensures
            r@ == filter_name_of(self.field()),
    ;
}

/// The name of the strategy for a field.
pub open spec fn filter_name_of(field: FilterField) -> Seq<char> {
    match field {
        FilterField::Customer => "customer"@,
        FilterField::Status => "status"@,
        FilterField::Note => "note"@,
        FilterField::All => "all"@,
    }
}

/// The name of the strategy for a field.
fn filter_name(field: FilterField) -> (r: &'static str)
    ensures
        r@ == filter_name_of(field),
{
    match field {
        FilterField::Customer => "customer",
        FilterField::Status => "status",
        FilterField::Note => "note",
        FilterField::All => "all",
    }
}

pub struct FilterByCustomer;

pub struct FilterByStatus;

pub struct FilterByNote;

pub struct FilterByAll;

impl FilteringStrategy for FilterByCustomer {
    open spec fn field(&self) -> FilterField {
        FilterField::Customer
    }

    fn filter(&self, transaksi_list: Vec<Transaksi>, keyword: &str) -> (r: Vec<Transaksi>) {
        filter_by(FilterField::Customer, transaksi_list, keyword)
    }

    fn get_name(&self) -> (r: &'static str) {
        filter_name(FilterField::Customer)
    }
}

impl FilteringStrategy for FilterByStatus {
    open spec fn field(&self) -> FilterField {
        FilterField::Status
    }

    fn filter(&self, transaksi_list: Vec<Transaksi>, keyword: &str) -> (r: Vec<Transaksi>) {
        filter_by(FilterField::Status, transaksi_list, keyword)
    }

    fn get_name(&self) -> (r: &'static str) {
        filter_name(FilterField::Status)
    }
}

impl FilteringStrategy for FilterByNote {
    open spec fn field(&self) -> FilterField {
        FilterField::Note
    }

    fn filter(&self, transaksi_list: Vec<Transaksi>, keyword: &str) -> (r: Vec<Transaksi>) {
        filter_by(FilterField::Note, transaksi_list, keyword)
    }

    fn get_name(&self) -> (r: &'static str) {
        filter_name(FilterField::Note)
    }
}

impl FilteringStrategy for FilterByAll {
    open spec fn field(&self) -> FilterField {
        FilterField::All
    }

    fn filter(&self, transaksi_list: Vec<Transaksi>, keyword: &str) -> (r: Vec<Transaksi>) {
        filter_by(FilterField::All, transaksi_list, keyword)
    }

    fn get_name(&self) -> (r: &'static str) {
        filter_name(FilterField::All)
    }
}

/// Any one of the filtering strategies.
pub enum AnyFilter {
    Customer(FilterByCustomer),
    Status(FilterByStatus),
    Note(FilterByNote),
    All(FilterByAll),
}

impl AnyFilter {
    /// The field of the strategy held.
    pub fn filter_field(&self) -> (r: FilterField)
        ensures
            r == self.field(),
    {
        match self {
            AnyFilter::Customer(_) => FilterField::Customer,
            AnyFilter::Status(_) => FilterField::Status,
            AnyFilter::Note(_) => FilterField::Note,
            AnyFilter::All(_) => FilterField::All,
        }
    }
}

impl FilteringStrategy for AnyFilter {
    open spec fn field(&self) -> FilterField {
        match self {
            AnyFilter::Customer(_) => FilterField::Customer,
            AnyFilter::Status(_) => FilterField::Status,
            AnyFilter::Note(_) => FilterField::Note,
            AnyFilter::All(_) => FilterField::All,
        }
    }

    fn filter(&self, transaksi_list: Vec<Transaksi>, keyword: &str) -> (r: Vec<Transaksi>) {
        filter_by(self.filter_field(), transaksi_list, keyword)
    }

    fn get_name(&self) -> (r: &'static str) {
        filter_name(self.filter_field())
    }
}

/// The field that a lower-case name of a search stands for. A name that is
/// not known stands for a search in all fields.
pub open spec fn filter_field_of(name: Seq<char>) -> FilterField {
    if name == "pelanggan"@ || name == "nama_pelanggan"@ || name == "customer"@ {
        FilterField::Customer
    } else if name == "status"@ {
        FilterField::Status
    } else if name == "catatan"@ || name == "note"@ {
        FilterField::Note
    } else {
        FilterField::All
    }
}

/// Makes the filtering strategy for a name.
pub struct FilteringStrategyFactory;

impl FilteringStrategyFactory {
    /// The strategy that a name stands for, whatever the case of its
    /// letters.
    pub fn create(filter_type: &str) -> (r: AnyFilter)
        ensures
            r.field() == filter_field_of(lowercase_text(filter_type@)),
    {
        let lower = to_lowercase(filter_type);
        let name = lower.as_str();
        if name.eq("pelanggan") || name.eq("nama_pelanggan") || name.eq("customer") {
            AnyFilter::Customer(FilterByCustomer)
        } else if name.eq("status") {
            AnyFilter::Status(FilterByStatus)
        } else if name.eq("catatan") || name.eq("note") {
            AnyFilter::Note(FilterByNote)
        } else {
            AnyFilter::All(FilterByAll)
        }
    }
}

} // verus!
