use vstd::prelude::*;
use vstd::string::StringExecFns;

use crate::text::has_chars;

verus! {

/// An item of the merged pending-transaction streams.
#[derive(Debug, Clone)]
pub enum PendingTxItem {
    /// A relay connected.
    Connected { source: String },
    /// A periodic tick of the listening loop.
    Heartbeat,
    /// A stream reported an error.
    Error { source: String, message: String },
    /// A pending transaction, with the hash it was announced under, its recipient and its input.
    Tx { source: String, tx_hash: Option<String>, to: String, data: Vec<u8> },
}

/// The name of the websocket source.
pub open spec fn wss_source() -> Seq<char> {
    seq!['w', 's', 's']
}

/// The state of the listening loop: how many pending transactions it has seen.
#[derive(Clone, Copy, Debug)]
pub struct ListenState {
    pub pending_count: u64,
}

/// What the listening loop does with an item.
#[derive(Clone, Copy, Debug, PartialEq, Eq, Structural)]
pub enum ItemStep {
    /// Say that a relay is connected.
    AnnounceConnected,
    /// Say that the loop is still listening, and how many pending transactions it has seen.
    StillListening { seen: u64 },
    /// Report the stream's error.
    ReportError,
    /// Inspect a pending transaction; when `lookup` holds, first fetch its recipient and
    /// input by its hash (the websocket stream announces hashes only).
    Inspect { lookup: bool },
}

/// The step that `item` calls for in state `state`.
pub open spec fn item_step(state: ListenState, item: PendingTxItem) -> ItemStep {
    match item {
        PendingTxItem::Connected { .. } => ItemStep::AnnounceConnected,
        PendingTxItem::Heartbeat => ItemStep::StillListening { seen: state.pending_count },
        PendingTxItem::Error { .. } => ItemStep::ReportError,
        PendingTxItem::Tx { source, tx_hash, .. } => ItemStep::Inspect {
            lookup: source@ == wss_source() && tx_hash is Some,
        },
    }
}

/// The state after `item`: every pending transaction counts once.
pub open spec fn state_after(state: ListenState, item: PendingTxItem) -> ListenState {
    match item {
        PendingTxItem::Tx { .. } => ListenState { pending_count: (state.pending_count + 1) as u64 },
        _ => state,
    }
}

impl ListenState {
    /// The state before any item.
    pub fn new() -> (r: ListenState)
        ensures
            r.pending_count == 0,
    {
        ListenState { pending_count: 0 }
    }

    /// Takes in one item of the streams and says what to do with it.
    pub fn step(&mut self, item: &PendingTxItem) -> (r: ItemStep)
        requires
            item is Tx ==> old(self).pending_count < u64::MAX,
        ensures
            r == item_step(*old(self), *item),
            match *item {
                PendingTxItem::Tx { source, tx_hash, .. } => r == (ItemStep::Inspect {
                    lookup: source@ == seq!['w', 's', 's'] && tx_hash is Some,
                }),
                _ => !(r is Inspect),
            },
            *final(self) == state_after(*old(self), *item),
    {
        match item {
            PendingTxItem::Connected { .. } => ItemStep::AnnounceConnected,
            PendingTxItem::Heartbeat => ItemStep::StillListening { seen: self.pending_count },
            PendingTxItem::Error { .. } => ItemStep::ReportError,
            PendingTxItem::Tx { source, tx_hash, .. } => {
                self.pending_count = self.pending_count + 1;
                let wss: [char; 3] = ['w', 's', 's'];
                assert(wss@ == wss_source());
                let from_wss = has_chars(source.as_str(), &wss);
                ItemStep::Inspect { lookup: from_wss && tx_hash.is_some() }
            },
        }
    }
}

/// Only pending transactions are inspected, and only those announced by the websocket
/// source with a hash are looked up by hash first; relay transactions carry their own
/// recipient and input.
pub proof fn law_lookup_only_for_websocket(state: ListenState, item: PendingTxItem)
    ensures
        match item {
            PendingTxItem::Tx { source, tx_hash, .. } => item_step(state, item) == (
            ItemStep::Inspect { lookup: source@ == seq!['w', 's', 's'] && tx_hash is Some }),
            _ => !(item_step(state, item) is Inspect),
        },
        item_step(state, item) matches ItemStep::Inspect { lookup } && lookup ==> (
        item matches PendingTxItem::Tx { source, tx_hash, .. } && source@ == seq!['w', 's', 's']
            && tx_hash is Some),
        item is Heartbeat ==> item_step(state, item) == (ItemStep::StillListening {
            seen: state.pending_count,
        }),
{
}

/// The number of pending transactions among `items`.
pub open spec fn count_txs(items: Seq<PendingTxItem>) -> nat
    decreases items.len(),
{
    if items.len() == 0 {
        0
    } else {
        count_txs(items.drop_last()) + if items.last() is Tx {
            1nat
        } else {
            0nat
        }
    }
}

/// The state after a run of items.
pub open spec fn state_after_all(state: ListenState, items: Seq<PendingTxItem>) -> ListenState
    decreases items.len(),
{
    if items.len() == 0 {
        state
    } else {
        state_after(state_after_all(state, items.drop_last()), items.last())
    }
}

/// After any run of items the loop's count is the number of pending transactions among
/// them (while the count fits in a `u64`), so a heartbeat reports exactly that number.
pub proof fn law_count_is_transactions_seen(items: Seq<PendingTxItem>)
    requires
        count_txs(items) <= u64::MAX,
    ensures
        state_after_all(ListenState { pending_count: 0 }, items).pending_count == count_txs(items),
        item_step(state_after_all(ListenState { pending_count: 0 }, items), PendingTxItem::Heartbeat)
            == (ItemStep::StillListening { seen: count_txs(items) as u64 }),
    decreases items.len(),
{
    if items.len() > 0 {
        law_count_is_transactions_seen(items.drop_last());
    }
}

/// Whether a transaction input of `data_len` bytes can be a contract call: it must hold at
/// least a function selector. Shorter inputs are skipped before any launch check.
pub fn is_contract_call(data_len: usize) -> (r: bool)
    ensures
        r == (data_len >= 4),
{
    data_len >= 4
}

/// What to do with a pending contract call.
#[derive(Clone, Copy, Debug, PartialEq, Eq, Structural)]
pub enum TxAction {
    /// A Flap token launch to snipe.
    FlapLaunch,
    /// A FourMeme token launch to snipe.
    FourMemeLaunch,
    /// Nothing to do.
    Ignore,
}

/// The action for a pending contract call, given whether it launches a Flap or a FourMeme
/// token and which launchpads are sniped; a Flap launch is checked first.
pub open spec fn tx_action_of(
    snipe_flap: bool,
    is_flap_launch: bool,
    snipe_fourmeme: bool,
    is_fourmeme_launch: bool,
) -> TxAction {
    if snipe_flap && is_flap_launch {
        TxAction::FlapLaunch
    } else if snipe_fourmeme && is_fourmeme_launch {
        TxAction::FourMemeLaunch
    } else {
        TxAction::Ignore
    }
}

/// Decides what to do with a pending contract call.
pub fn tx_action(
    snipe_flap: bool,
    is_flap_launch: bool,
    snipe_fourmeme: bool,
    is_fourmeme_launch: bool,
) -> (r: TxAction)
    ensures
        r == tx_action_of(snipe_flap, is_flap_launch, snipe_fourmeme, is_fourmeme_launch),
        r == TxAction::FlapLaunch <==> snipe_flap && is_flap_launch,
        r == TxAction::FourMemeLaunch <==> !(snipe_flap && is_flap_launch) && snipe_fourmeme
            && is_fourmeme_launch,
{
    if snipe_flap && is_flap_launch {
        TxAction::FlapLaunch
    } else if snipe_fourmeme && is_fourmeme_launch {
        TxAction::FourMemeLaunch
    } else {
        TxAction::Ignore
    }
}

/// A launch is acted on only when its platform is sniped: a Flap launch whenever Flap is
/// sniped, a FourMeme launch when FourMeme is sniped and no sniped Flap launch comes first,
/// and nothing else.
pub proof fn law_launch_needs_its_switch(
    snipe_flap: bool,
    is_flap_launch: bool,
    snipe_fourmeme: bool,
    is_fourmeme_launch: bool,
)
    ensures
        tx_action_of(snipe_flap, is_flap_launch, snipe_fourmeme, is_fourmeme_launch)
            == TxAction::FlapLaunch <==> snipe_flap && is_flap_launch,
        tx_action_of(snipe_flap, is_flap_launch, snipe_fourmeme, is_fourmeme_launch)
            == TxAction::FourMemeLaunch <==> !(snipe_flap && is_flap_launch) && snipe_fourmeme
            && is_fourmeme_launch,
        tx_action_of(snipe_flap, is_flap_launch, snipe_fourmeme, is_fourmeme_launch)
            == TxAction::Ignore <==> !(snipe_flap && is_flap_launch) && !(snipe_fourmeme
            && is_fourmeme_launch),
{
}

/// The sources that the listening loop merges, as announced: `relay`, `wss` or
/// `relay+wss`; `None` when there is none to listen to.
pub fn listening_sources(use_relay: bool, use_wss: bool) -> (r: Option<String>)
    ensures
        match r {
            Some(s) => (use_relay || use_wss) && s@ == (if use_relay && use_wss {
                "relay+wss"@
            } else if use_relay {
                "relay"@
            } else {
                "wss"@
            }),
            None => !use_relay && !use_wss,
        },
{
    if use_relay && use_wss {
        Some(String::from_str("relay+wss"))
    } else if use_relay {
        Some(String::from_str("relay"))
    } else if use_wss {
        Some(String::from_str("wss"))
    } else {
        None
    }
}

/// A bounded wait for a transaction receipt: a number of attempts that remain.
#[derive(Clone, Copy, Debug)]
pub struct ReceiptPoll {
    pub remaining: u32,
}

impl ReceiptPoll {
    /// A wait of at most `attempts` attempts.
    pub fn new(attempts: u32) -> (r: ReceiptPoll)
        ensures
            r.remaining == attempts,
    {
        ReceiptPoll { remaining: attempts }
    }

    /// Whether another attempt may be made; if so, it is counted.
    pub fn try_again(&mut self) -> (r: bool)
        ensures
            r == (old(self).remaining > 0),
            final(self).remaining == if r {
                (old(self).remaining - 1) as u32
            } else {
                old(self).remaining
            },
    {
        if self.remaining > 0 {
            self.remaining = self.remaining - 1;
            true
        } else {
            false
        }
    }
}

} // verus!
