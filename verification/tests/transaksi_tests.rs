use buildingstore::transaksi::model::{StatusTransaksi, Transaksi};
use buildingstore::transaksi::state::{AnyState, StateAction, TransaksiState, TransaksiStateFactory};
use buildingstore::transaksi::strategy::{
    order, precedes, AnyFilter, AnySort, FilterByNote, FilterField, FilteringStrategy,
    FilteringStrategyFactory, SortByDateDesc, SortByStatus, SortKey, SortingStrategy,
    SortingStrategyFactory,
};
use std::cmp::Ordering;

fn transaksi(id: i32, name: &str, date: &str, total: i64, status: StatusTransaksi, note: Option<&str>) -> Transaksi {
    Transaksi {
        id,
        id_pelanggan: id,
        nama_pelanggan: name.to_string(),
        tanggal_transaksi: date.to_string(),
        total_harga: total,
        status,
        catatan: note.map(|n| n.to_string()),
    }
}

fn data() -> Vec<Transaksi> {
    vec![
        transaksi(1, "Charlie", "2024-01-15 10:00:00", 15_000_000, StatusTransaksi::MasihDiproses, Some("Test 1")),
        transaksi(2, "Alice", "2024-01-10 14:30:00", 25_000_000, StatusTransaksi::Selesai, Some("Test 2")),
        transaksi(3, "Bob", "2024-01-20 09:15:00", 10_000_000, StatusTransaksi::Dibatalkan, None),
        transaksi(42, "alice", "2024-01-10 14:30:00", 10_000_000, StatusTransaksi::Selesai, Some("Rush")),
    ]
}

fn ids(list: &[Transaksi]) -> Vec<i32> {
    list.iter().map(|t| t.id).collect()
}

#[test]
fn status_codes() {
    assert_eq!(StatusTransaksi::MasihDiproses.to_string(), "MASIH_DIPROSES");
    assert_eq!(StatusTransaksi::Selesai.to_string(), "SELESAI");
    assert_eq!(StatusTransaksi::Dibatalkan.to_string(), "DIBATALKAN");
}

#[test]
fn every_transition_is_allowed_or_refused_with_its_message() {
    let all = [StatusTransaksi::MasihDiproses, StatusTransaksi::Selesai, StatusTransaksi::Dibatalkan];
    for from in all {
        let state = TransaksiStateFactory::create_state(&from);
        assert_eq!(state.status(), from);
        for action in [StateAction::Complete, StateAction::Cancel, StateAction::Reopen] {
            let expected = match (from, action) {
                (StatusTransaksi::MasihDiproses, StateAction::Complete) => Ok(StatusTransaksi::Selesai),
                (StatusTransaksi::MasihDiproses, StateAction::Cancel) => Ok(StatusTransaksi::Dibatalkan),
                (StatusTransaksi::MasihDiproses, StateAction::Reopen) => Err("Transaksi sudah dalam status diproses"),
                (StatusTransaksi::Selesai, StateAction::Reopen) => Ok(StatusTransaksi::MasihDiproses),
                (StatusTransaksi::Selesai, _) => Err("Transaksi selesai tidak dapat diubah statusnya"),
                (StatusTransaksi::Dibatalkan, StateAction::Reopen) => Ok(StatusTransaksi::MasihDiproses),
                (StatusTransaksi::Dibatalkan, _) => Err("Transaksi dibatalkan tidak dapat diubah statusnya"),
            };
            let got = state.next_state(action).map(|s| s.status());
            assert_eq!(got, expected.map_err(|m| m.to_string()));
        }
    }
}

#[test]
fn only_a_transaction_in_process_can_be_touched() {
    for status in [StatusTransaksi::MasihDiproses, StatusTransaksi::Selesai, StatusTransaksi::Dibatalkan] {
        let state: AnyState = TransaksiStateFactory::create_state(&status);
        let open = status == StatusTransaksi::MasihDiproses;
        assert_eq!(state.can_be_modified(), open);
        assert_eq!(state.can_be_cancelled(), open);
        assert_eq!(state.can_be_completed(), open);
        assert_eq!(state.can_add_items(), open);
        assert_eq!(state.can_update_items(), open);
        assert_eq!(state.can_delete_items(), open);
    }
    assert_eq!(
        TransaksiStateFactory::create_state(&StatusTransaksi::MasihDiproses).get_allowed_actions(),
        vec!["complete", "cancel", "add_item", "update_item"]
    );
    assert_eq!(
        TransaksiStateFactory::create_state(&StatusTransaksi::Selesai).get_allowed_actions(),
        vec!["print_receipt", "view_details"]
    );
    assert_eq!(
        TransaksiStateFactory::create_state(&StatusTransaksi::Dibatalkan).get_allowed_actions(),
        vec!["view_details"]
    );
}

#[test]
fn sorting_keeps_the_order_of_equal_items() {
    let by_date = SortingStrategyFactory::create("date_asc").sort(data());
    assert_eq!(ids(&by_date), vec![2, 42, 1, 3]);
    let by_date_desc = SortByDateDesc.sort(data());
    assert_eq!(ids(&by_date_desc), vec![3, 1, 2, 42]);
    let by_total = SortingStrategyFactory::create("TOTAL").sort(data());
    assert_eq!(ids(&by_total), vec![3, 42, 1, 2]);
    let by_total_desc = SortingStrategyFactory::create("total_desc").sort(data());
    assert_eq!(ids(&by_total_desc), vec![2, 1, 3, 42]);
    let by_customer = SortingStrategyFactory::create("pelanggan").sort(data());
    assert_eq!(ids(&by_customer), vec![2, 3, 1, 42]);
    let by_status = SortByStatus.sort(data());
    assert_eq!(ids(&by_status), vec![3, 1, 2, 42]);
}

#[test]
fn texts_are_ordered_by_code_point() {
    let a = transaksi(1, "Zoe", "", 0, StatusTransaksi::Selesai, None);
    let b = transaksi(2, "adam", "", 0, StatusTransaksi::Selesai, None);
    let c = transaksi(3, "Zo", "", 0, StatusTransaksi::Selesai, None);
    let d = transaksi(4, "\u{e9}mile", "", 0, StatusTransaksi::Selesai, None);
    assert!(precedes(SortKey::CustomerAsc, &a, &b));
    assert!(!precedes(SortKey::CustomerAsc, &b, &a));
    assert!(precedes(SortKey::CustomerAsc, &c, &a));
    assert!(!precedes(SortKey::CustomerAsc, &a, &c));
    assert!(precedes(SortKey::CustomerAsc, &b, &d));
    assert!(precedes(SortKey::CustomerAsc, &a, &a));
    assert_eq!(order(SortKey::CustomerAsc, &a, &b), Ordering::Less);
    assert_eq!(order(SortKey::CustomerAsc, &b, &a), Ordering::Greater);
    assert_eq!(order(SortKey::DateAsc, &a, &b), Ordering::Equal);
    assert_eq!(order(SortKey::TotalDesc, &a, &b), Ordering::Equal);
}

#[test]
fn names_of_sorting_strategies_are_read_whatever_their_case() {
    let cases = [
        ("tanggal", "date_asc"),
        ("Tanggal_Transaksi", "date_asc"),
        ("DATE_ASC", "date_asc"),
        ("tanggal_desc", "date_desc"),
        ("date_desc", "date_desc"),
        ("total", "total_asc"),
        ("total_harga", "total_asc"),
        ("total_asc", "total_asc"),
        ("total_desc", "total_desc"),
        ("pelanggan", "customer_asc"),
        ("nama_pelanggan", "customer_asc"),
        ("customer", "customer_asc"),
        ("status", "status"),
        ("", "date_desc"),
        ("customer_asc", "date_desc"),
        ("anything", "date_desc"),
    ];
    for (given, name) in cases {
        assert_eq!(SortingStrategyFactory::create(given).get_name(), name, "{}", given);
    }
    assert_eq!(
        SortingStrategyFactory::get_available_strategies(),
        vec!["date_asc", "date_desc", "total_asc", "total_desc", "customer_asc", "status"]
    );
    assert!(matches!(SortingStrategyFactory::create("status"), AnySort::Status(_)));
    assert_eq!(SortingStrategyFactory::create("status").sort_key(), SortKey::Status);
}

#[test]
fn names_of_filtering_strategies_are_read_whatever_their_case() {
    let cases = [
        ("pelanggan", "customer"),
        ("Nama_Pelanggan", "customer"),
        ("CUSTOMER", "customer"),
        ("status", "status"),
        ("catatan", "note"),
        ("note", "note"),
        ("", "all"),
        ("all", "all"),
        ("id", "all"),
    ];
    for (given, name) in cases {
        assert_eq!(FilteringStrategyFactory::create(given).get_name(), name, "{}", given);
    }
    assert!(matches!(FilteringStrategyFactory::create("note"), AnyFilter::Note(_)));
    assert_eq!(FilteringStrategyFactory::create("note").filter_field(), FilterField::Note);
}

#[test]
fn filtering_ignores_case_and_keeps_order() {
    let by_customer = FilteringStrategyFactory::create("customer").filter(data(), "ALICE");
    assert_eq!(ids(&by_customer), vec![2, 42]);
    let by_customer = FilteringStrategyFactory::create("customer").filter(data(), "li");
    assert_eq!(ids(&by_customer), vec![1, 2, 42]);
    let by_status = FilteringStrategyFactory::create("status").filter(data(), "selesai");
    assert_eq!(ids(&by_status), vec![2, 42]);
    let by_status = FilteringStrategyFactory::create("status").filter(data(), "a");
    assert_eq!(ids(&by_status), vec![1, 2, 3, 42]);
    let by_note = FilterByNote.filter(data(), "test");
    assert_eq!(ids(&by_note), vec![1, 2]);
    let by_note = FilterByNote.filter(data(), "");
    assert_eq!(ids(&by_note), vec![1, 2, 42]);
    let none = FilterByNote.filter(data(), "absent");
    assert!(none.is_empty());
}

#[test]
fn filtering_all_fields_looks_at_the_id_too() {
    let all = FilteringStrategyFactory::create("all").filter(data(), "42");
    assert_eq!(ids(&all), vec![42]);
    let all = FilteringStrategyFactory::create("all").filter(data(), "2");
    assert_eq!(ids(&all), vec![2, 42]);
    let all = FilteringStrategyFactory::create("all").filter(data(), "rush");
    assert_eq!(ids(&all), vec![42]);
    let all = FilteringStrategyFactory::create("all").filter(data(), "dibatalkan");
    assert_eq!(ids(&all), vec![3]);
    let all = FilteringStrategyFactory::create("all").filter(data(), "");
    assert_eq!(ids(&all), vec![1, 2, 3, 42]);
}
