use bsc_sniper::mempool::{
    is_contract_call, listening_sources, tx_action, ItemStep, ListenState, PendingTxItem, ReceiptPoll, TxAction,
};

fn tx(source: &str, hash: Option<&str>) -> PendingTxItem {
    PendingTxItem::Tx {
        source: source.to_string(),
        tx_hash: hash.map(|h| h.to_string()),
        to: "0x00".to_string(),
        data: vec![1, 2, 3, 4],
    }
}

#[test]
fn heartbeat_reports_transactions_seen() {
    let mut st = ListenState::new();
    assert_eq!(
        st.step(&PendingTxItem::Connected { source: "relay".to_string() }),
        ItemStep::AnnounceConnected
    );
    assert_eq!(st.step(&tx("relay", None)), ItemStep::Inspect { lookup: false });
    assert_eq!(st.step(&tx("wss", Some("0x01"))), ItemStep::Inspect { lookup: true });
    assert_eq!(st.step(&tx("wss", None)), ItemStep::Inspect { lookup: false });
    assert_eq!(
        st.step(&PendingTxItem::Error { source: "wss".to_string(), message: "x".to_string() }),
        ItemStep::ReportError
    );
    assert_eq!(st.step(&PendingTxItem::Heartbeat), ItemStep::StillListening { seen: 3 });
    assert_eq!(st.pending_count, 3);
}

#[test]
fn transaction_actions() {
    assert!(!is_contract_call(3));
    assert!(is_contract_call(4));
    assert_eq!(tx_action(true, true, true, true), TxAction::FlapLaunch);
    assert_eq!(tx_action(false, true, true, true), TxAction::FourMemeLaunch);
    assert_eq!(tx_action(true, false, false, true), TxAction::Ignore);
    assert_eq!(tx_action(false, false, true, false), TxAction::Ignore);
}

#[test]
fn sources_label() {
    assert_eq!(listening_sources(true, true), Some("relay+wss".to_string()));
    assert_eq!(listening_sources(true, false), Some("relay".to_string()));
    assert_eq!(listening_sources(false, true), Some("wss".to_string()));
    assert_eq!(listening_sources(false, false), None);
}

#[test]
fn receipt_poll_is_bounded() {
    let mut p = ReceiptPoll::new(2);
    assert!(p.try_again());
    assert!(p.try_again());
    assert!(!p.try_again());
    assert_eq!(p.remaining, 0);
}
