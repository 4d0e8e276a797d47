use deckgym::optimized_state::OptimizedState;
use deckgym::state::State;
use deckgym::test_helpers::load_test_decks;
use std::sync::Arc;
use std::time::Instant;

#[test]
fn test_cheap_cloning() {
    let (deck_a, deck_b) = load_test_decks();
    let state1 = OptimizedState::new(&deck_a, &deck_b);
    let state2 = state1.clone();
    assert!(Arc::ptr_eq(&state1.hands[0], &state2.hands[0]));
    assert!(Arc::ptr_eq(&state1.decks[0], &state2.decks[0]));
    assert!(Arc::ptr_eq(&state1.discard_piles[0], &state2.discard_piles[0]));
}

#[test]
fn test_copy_on_write() {
    let (deck_a, deck_b) = load_test_decks();
    let mut state1 = OptimizedState::new(&deck_a, &deck_b);
    let state2 = state1.clone();
    state1.maybe_draw_card(0);
    assert!(!Arc::ptr_eq(&state1.hands[0], &state2.hands[0]));
    assert!(Arc::ptr_eq(&state1.hands[1], &state2.hands[1]));
    assert!(Arc::ptr_eq(&state1.discard_piles[0], &state2.discard_piles[0]));
}

#[test]
fn test_performance_comparison() {
    let (deck_a, deck_b) = load_test_decks();
    let original_state = State::new(&deck_a, &deck_b);
    let start = Instant::now();
    for _ in 0..1000 {
        let _ = original_state.clone();
    }
    let original_duration = start.elapsed();
    let optimized_state = OptimizedState::new(&deck_a, &deck_b);
    let start = Instant::now();
    for _ in 0..1000 {
        let _ = optimized_state.clone();
    }
    let optimized_duration = start.elapsed();
    println!("plain clone time: {:?}", original_duration);
    println!("shared clone time: {:?}", optimized_duration);
    assert!(optimized_duration < original_duration / 2);
}

#[test]
fn test_optimized_draw_transfers_to_hand() {
    let (deck_a, deck_b) = load_test_decks();
    let mut state = OptimizedState::new(&deck_a, &deck_b);
    assert_eq!(state.decks[0].cards.len(), 20);
    assert_eq!(state.hands[0].len(), 0);
    state.maybe_draw_card(0);
    assert_eq!(state.decks[0].cards.len(), 19);
    assert_eq!(state.hands[0].len(), 1);
}
