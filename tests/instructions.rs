use ntt_core::chain_id::ChainId;
use ntt_core::config::{Config, Mode};
use ntt_core::error::NttError;
use ntt_core::inbox::InboxItem;
use ntt_core::ledger::LedgerAction;
use ntt_core::normalized_amount::NormalizedAmount;
use ntt_core::outbound::finalize_outbound;
use ntt_core::rate_limit::RateLimitState;
use ntt_core::release_inbound::{release_inbound, ReleaseInbound, ReleaseInboundArgs};
use ntt_core::sequence::Sequence;
use ntt_core::transfer::{transfer, Transfer, TransferArgs};

fn config(mode: Mode, paused: bool) -> Config {
    Config { mint: vec![7; 32], mode, paused }
}

fn outbound_accounts(mode: Mode, paused: bool) -> Transfer {
    Transfer {
        config: config(mode, paused),
        mint_decimals: 9,
        seq: Sequence::new(),
        rate_limit: RateLimitState::new(10_000_000_000, 1_000_000, 0),
    }
}

fn args(amount: u64) -> TransferArgs {
    TransferArgs {
        amount,
        recipient_chain: ChainId { id: 2 },
        recipient_address: vec![0xab; 32],
    }
}

fn inbound_accounts(mode: Mode, paused: bool, amount: u64) -> ReleaseInbound {
    ReleaseInbound {
        config: config(mode, paused),
        inbox_item: InboxItem {
            amount: NormalizedAmount { amount },
            recipient_address: vec![0xab; 32],
            released: false,
        },
        mint_decimals: 9,
    }
}

#[test]
fn end_to_end_burn_then_mint() {
    let mut out = outbound_accounts(Mode::Burning, false);
    let (entry, action) = transfer(&mut out, args(1_000_000_000), 100).unwrap();
    assert_eq!(entry.sequence, 0);
    assert_eq!(entry.amount.amount, 100_000_000);
    assert_eq!(entry.release_timestamp, 100);
    assert!(!entry.released);
    assert_eq!(entry.recipient_chain, ChainId { id: 2 });
    assert_eq!(entry.recipient_address, vec![0xab; 32]);
    assert!(matches!(action, LedgerAction::Burn { amount: 1_000_000_000 }));
    assert_eq!(out.seq.sequence, 1);

    let mut inb = inbound_accounts(Mode::Burning, false, entry.amount.amount);
    let action = release_inbound(&mut inb, ReleaseInboundArgs {}).unwrap();
    match action {
        LedgerAction::Mint { amount, recipient } => {
            assert_eq!(amount, 1_000_000_000);
            assert_eq!(recipient, vec![0xab; 32]);
        }
        other => panic!("unexpected action {:?}", other),
    }
    assert!(inb.inbox_item.released);
}

#[test]
fn second_release_is_refused() {
    let mut inb = inbound_accounts(Mode::Burning, false, 100_000_000);
    let mut minted: u64 = 0;
    if let Ok(LedgerAction::Mint { amount, .. }) = release_inbound(&mut inb, ReleaseInboundArgs {}) {
        minted += amount;
    }
    assert_eq!(minted, 1_000_000_000);
    assert!(inb.inbox_item.released);
    for _ in 0..3 {
        let r = release_inbound(&mut inb, ReleaseInboundArgs {});
        assert!(matches!(r, Err(NttError::TransferAlreadyRedeemed)));
        assert!(inb.inbox_item.released);
    }
    assert_eq!(minted, 1_000_000_000);
}

#[test]
fn inbox_item_release_flips_once() {
    let mut item = InboxItem {
        amount: NormalizedAmount { amount: 1 },
        recipient_address: vec![1, 2, 3],
        released: false,
    };
    assert_eq!(item.release(), Ok(()));
    assert!(item.released);
    assert_eq!(item.release(), Err(NttError::TransferAlreadyRedeemed));
}

#[test]
fn release_overflow_leaves_item_pending() {
    let mut inb = inbound_accounts(Mode::Burning, false, u64::MAX);
    inb.mint_decimals = 18;
    let r = release_inbound(&mut inb, ReleaseInboundArgs {});
    assert!(matches!(r, Err(NttError::AmountOverflow)));
    assert!(!inb.inbox_item.released);
}

#[test]
fn locking_mode_holds_then_unlocks() {
    let mut out = outbound_accounts(Mode::Locking, false);
    let (entry, action) = transfer(&mut out, args(2_500_000_000), 0).unwrap();
    assert!(matches!(action, LedgerAction::Lock { amount: 2_500_000_000 }));
    assert_eq!(entry.amount.amount, 250_000_000);

    let mut inb = inbound_accounts(Mode::Locking, false, entry.amount.amount);
    let action = release_inbound(&mut inb, ReleaseInboundArgs {}).unwrap();
    assert!(matches!(action, LedgerAction::Unlock { amount: 2_500_000_000, .. }));
}

#[test]
fn sequences_are_consecutive_and_distinct() {
    let mut out = outbound_accounts(Mode::Burning, false);
    let mut seen = Vec::new();
    for _ in 0..10 {
        let (entry, _) = transfer(&mut out, args(1_000), 0).unwrap();
        seen.push(entry.sequence);
    }
    assert_eq!(seen, (0u64..10).collect::<Vec<u64>>());
    assert_eq!(out.seq.sequence, 10);
}

#[test]
fn sequence_next_returns_value_before_increment() {
    let mut seq = Sequence { sequence: 41 };
    assert_eq!(seq.next(), Ok(41));
    assert_eq!(seq.next(), Ok(42));
    assert_eq!(seq.sequence, 43);
}

#[test]
fn exhausted_sequence_fails_without_change() {
    let mut out = outbound_accounts(Mode::Burning, false);
    out.seq = Sequence { sequence: u64::MAX };
    let before = out.rate_limit;
    let r = transfer(&mut out, args(1_000), 0);
    assert!(matches!(r, Err(NttError::SequenceExhausted)));
    assert_eq!(out.seq.sequence, u64::MAX);
    assert_eq!(out.rate_limit, before);
}

#[test]
fn transfer_overflow_fails_without_change() {
    let mut out = outbound_accounts(Mode::Burning, false);
    out.mint_decimals = 0;
    let before = out.rate_limit;
    let r = transfer(&mut out, args(u64::MAX), 0);
    assert!(matches!(r, Err(NttError::AmountOverflow)));
    assert_eq!(out.seq.sequence, 0);
    assert_eq!(out.rate_limit, before);
}

#[test]
fn transfer_over_limit_is_queued() {
    let mut out = outbound_accounts(Mode::Burning, false);
    out.rate_limit = RateLimitState::new(1_000, 100, 0);
    let (first, _) = transfer(&mut out, args(5_000), 0).unwrap();
    assert_eq!(first.amount.amount, 500);
    assert_eq!(first.release_timestamp, 0);
    let (second, _) = transfer(&mut out, args(7_000), 0).unwrap();
    assert_eq!(second.amount.amount, 700);
    assert_eq!(second.release_timestamp, 2);
    assert_eq!(second.sequence, 1);
}

#[test]
fn paused_gate_blocks_every_operation() {
    let mut out = outbound_accounts(Mode::Burning, true);
    let before = out.rate_limit;
    let r = transfer(&mut out, args(1_000_000_000), 0);
    assert!(matches!(r, Err(NttError::Paused)));
    assert_eq!(out.seq.sequence, 0);
    assert_eq!(out.rate_limit, before);

    let mut inb = inbound_accounts(Mode::Burning, true, 100);
    let r = release_inbound(&mut inb, ReleaseInboundArgs {});
    assert!(matches!(r, Err(NttError::Paused)));
    assert!(!inb.inbox_item.released);

    let mut running = outbound_accounts(Mode::Burning, false);
    let (mut entry, _) = transfer(&mut running, args(1_000_000_000), 0).unwrap();
    let paused = config(Mode::Burning, true);
    assert_eq!(finalize_outbound(&paused, &mut entry, 10), Err(NttError::Paused));
    assert!(!entry.released);
}

#[test]
fn finalize_outbound_waits_and_happens_once() {
    let mut out = outbound_accounts(Mode::Burning, false);
    out.rate_limit = RateLimitState::new(100, 10, 0);
    let (mut entry, _) = transfer(&mut out, args(3_000), 0).unwrap();
    assert_eq!(entry.release_timestamp, 20);
    let cfg = config(Mode::Burning, false);
    assert_eq!(
        finalize_outbound(&cfg, &mut entry, 19),
        Err(NttError::ReleaseTimestampNotReached)
    );
    assert!(!entry.released);
    assert_eq!(finalize_outbound(&cfg, &mut entry, 20), Ok(()));
    assert!(entry.released);
    assert_eq!(
        finalize_outbound(&cfg, &mut entry, 21),
        Err(NttError::TransferAlreadyRedeemed)
    );
}

#[test]
fn enqueue_takes_the_next_sequence() {
    let mut seq = Sequence { sequence: 7 };
    let entry = ntt_core::outbound::enqueue(
        &mut seq,
        NormalizedAmount { amount: 42 },
        ChainId { id: 5 },
        vec![9, 9],
        1_234,
    )
    .unwrap();
    assert_eq!(entry.sequence, 7);
    assert_eq!(entry.amount.amount, 42);
    assert_eq!(entry.recipient_chain, ChainId { id: 5 });
    assert_eq!(entry.recipient_address, vec![9, 9]);
    assert_eq!(entry.release_timestamp, 1_234);
    assert!(!entry.released);
    assert_eq!(seq.sequence, 8);

    let mut full = Sequence { sequence: u64::MAX };
    let r = ntt_core::outbound::enqueue(&mut full, NormalizedAmount { amount: 1 }, ChainId { id: 5 }, vec![], 0);
    assert!(matches!(r, Err(NttError::SequenceExhausted)));
    assert_eq!(full.sequence, u64::MAX);
}
