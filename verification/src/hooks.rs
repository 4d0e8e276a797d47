use vstd::prelude::*;
use crate::state::{spec_effect_views_at, State, StateV};
use crate::tool_ids::ToolId;
use crate::types::{Card, CardV, EnergyType, PlayedCard};

verus! {

/// A freshly fielded Pokemon: full hit points, nothing attached, no status.
pub fn to_playable_card(card: &Card, played_this_turn: bool) -> (r: PlayedCard)
    requires
        card matches Card::Pokemon(p) && p.hp > 0,
    ensures
        r.card@ == card@,
        r.card is Pokemon,
        r.remaining_hp == card->Pokemon_0.hp,
        r.total_hp == card->Pokemon_0.hp,
        r.attached_energy@.len() == 0,
        r.attached_tool is None,
        r.played_this_turn == played_this_turn,
        !r.ability_used,
        !r.poisoned,
        !r.paralyzed,
        !r.asleep,
        r.cards_behind@.len() == 0,
{
    let hp = match card {
        Card::Pokemon(p) => p.hp,
        Card::Trainer(_) => unreached(),
    };
    PlayedCard {
        card: card.clone(),
        remaining_hp: hp,
        total_hp: hp,
        attached_energy: Vec::new(),
        attached_tool: None,
        played_this_turn,
        ability_used: false,
        poisoned: false,
        paralyzed: false,
        asleep: false,
        cards_behind: Vec::new(),
    }
}

/// How much the current turn's effects lower retreat costs: X Speed grants
/// one, Leaf grants two; the discounts add up.
pub open spec fn spec_retreat_discount(effects: Seq<CardV>) -> int
    decreases effects.len(),
{
    if effects.len() == 0 {
        0
    } else {
        spec_retreat_discount(effects.drop_first()) + spec_card_retreat_discount(effects[0])
    }
}

/// The retreat discount one effect card grants.
pub open spec fn spec_card_retreat_discount(card: CardV) -> int {
    match card {
        CardV::Trainer(t) => if t.numeric_id == 902 {
            1
        } else if t.numeric_id == 368 || t.numeric_id == 382 {
            2
        } else {
            0
        },
        CardV::Pokemon(_) => 0,
    }
}

/// The retreat cost the Pokemon has to pay right now: its printed cost,
/// shortened by the discounts among the current turn's effects.
pub fn get_retreat_cost(state: &State, played_card: &PlayedCard) -> (r: Vec<EnergyType>)
    requires
        state@.wf(),
        played_card.card is Pokemon,
    ensures
        ({
            let base = played_card.card->Pokemon_0.retreat_cost@;
            let discount = spec_retreat_discount(spec_effect_views_at(state@, state@.turn_count));
            r@ == if discount >= base.len() {
                Seq::<EnergyType>::empty()
            } else {
                base.take(base.len() - discount)
            }
        }),
{
    let effects = state.get_current_turn_effects();
    let ghost views = spec_effect_views_at(state@, state@.turn_count);
    let mut discount: u128 = 0;
    let mut i: usize = 0;
    while i < effects.len()
        invariant
            effects@.map_values(|c: Card| c@) == views,
            i <= effects@.len(),
            discount == spec_retreat_discount(views.take(i as int)),
            discount <= 2 * i,
        decreases effects@.len() - i,
    {
        let step: u128 = match &effects[i] {
            Card::Trainer(t) => {
                if t.numeric_id == 902 {
                    1
                } else if t.numeric_id == 368 || t.numeric_id == 382 {
                    2
                } else {
                    0
                }
            },
            Card::Pokemon(_) => 0,
        };
        proof {
            lemma_retreat_discount_take(views, i as int);
            assert(views[i as int] == effects@[i as int]@);
        }
        discount = discount + step;
        i += 1;
    }
    proof {
        assert(views.take(effects@.len() as int) =~= views);
    }
    let base = match &played_card.card {
        Card::Pokemon(p) => &p.retreat_cost,
        Card::Trainer(_) => unreached(),
    };
    let base_len = base.len();
    let keep = if discount >= base_len as u128 {
        0
    } else {
        base_len - (discount as usize)
    };
    let mut r: Vec<EnergyType> = Vec::new();
    let mut j: usize = 0;
    while j < keep
        invariant
            keep <= base@.len(),
            j <= keep,
            r@ == base@.take(j as int),
        decreases keep - j,
    {
        r.push(base[j]);
        proof {
            assert(r@ =~= base@.take(j + 1int));
        }
        j += 1;
    }
    proof {
        if discount >= base@.len() {
            assert(r@ =~= Seq::<EnergyType>::empty());
        }
    }
    r
}

/// Extending the scanned prefix by one effect adds that effect's discount.
proof fn lemma_retreat_discount_take(views: Seq<CardV>, i: int)
    requires
        0 <= i < views.len(),
    ensures
        spec_retreat_discount(views.take(i + 1)) == spec_retreat_discount(views.take(i))
            + spec_card_retreat_discount(views[i]),
    decreases i,
{
    if i == 0 {
        assert(views.take(1).drop_first() =~= views.take(0));
        assert(views.take(1)[0] == views[0]);
    } else {
        lemma_retreat_discount_take(views.drop_first(), i - 1);
        assert(views.take(i + 1).drop_first() =~= views.drop_first().take(i));
        assert(views.take(i).drop_first() =~= views.drop_first().take(i - 1));
        assert(views.take(i + 1)[0] == views[0]);
        assert(views.take(i)[0] == views[0]);
        assert(views.drop_first()[i - 1] == views[i]);
        lemma_retreat_discount_first(views.take(i + 1));
        lemma_retreat_discount_first(views.take(i));
    }
}

/// Retreat discounts never fall below zero.
pub proof fn lemma_retreat_discount_nonneg(views: Seq<CardV>)
    ensures
        spec_retreat_discount(views) >= 0,
    decreases views.len(),
{
    if views.len() > 0 {
        lemma_retreat_discount_nonneg(views.drop_first());
    }
}

/// Unfolds `spec_retreat_discount` once at the front.
proof fn lemma_retreat_discount_first(views: Seq<CardV>)
    requires
        views.len() > 0,
    ensures
        spec_retreat_discount(views) == spec_card_retreat_discount(views[0])
            + spec_retreat_discount(views.drop_first()),
{
}

/// Twenty more hit points, stopping at the arithmetic limit.
pub open spec fn spec_plus_twenty(x: u32) -> u32 {
    if x >= u32::MAX - 20 {
        u32::MAX
    } else {
        (x + 20) as u32
    }
}

/// What attaching a tool does to the Pokemon wearing it: a Giant Cape grants
/// twenty extra hit points; a Rocky Helmet acts later, when its wearer is
/// attacked, and changes nothing on attachment.
pub fn on_attach_tool(state: &mut State, acting_player: usize, in_play_idx: usize, tool_id: ToolId)
    requires
        old(state)@.wf(),
        acting_player < 2,
        in_play_idx < 4,
    ensures
        final(state)@.wf(),
        ({
            let p = acting_player as int;
            let i = in_play_idx as int;
            match tool_id {
                ToolId::A2147GiantCape => match old(state)@.slot(p, i) {
                    Some(pc) => final(state)@ =~~= (StateV {
                        in_play_pokemon: old(state)@.in_play_pokemon.update(
                            p,
                            old(state)@.in_play_pokemon[p].update(
                                i,
                                Some(
                                    PlayedCard {
                                        remaining_hp: spec_plus_twenty(pc.remaining_hp),
                                        total_hp: spec_plus_twenty(pc.total_hp),
                                        ..pc
                                    },
                                ),
                            ),
                        ),
                        ..old(state)@
                    }),
                    None => final(state)@ =~~= old(state)@,
                },
                ToolId::PA010RockyHelmet => final(state)@ =~~= old(state)@,
            }
        }),
        final(state)@.same_card_counts(old(state)@),
    {
        match tool_id {
            ToolId::A2147GiantCape => {
                let ghost pre = state@;
                let slot = state.in_play_pokemon[acting_player][in_play_idx].take();
                match slot {
                    Some(pc) => {
                        let mut pc = pc;
                        pc.remaining_hp = if pc.remaining_hp >= u32::MAX - 20 {
                            u32::MAX
                        } else {
                            pc.remaining_hp + 20
                        };
                        pc.total_hp = if pc.total_hp >= u32::MAX - 20 {
                            u32::MAX
                        } else {
                            pc.total_hp + 20
                        };
                        state.in_play_pokemon[acting_player][in_play_idx] = Some(pc);
                        proof {
                            lemma_tool_update(pre, state@, acting_player as int, in_play_idx as int);
                        }
                    },
                    None => {
                        state.in_play_pokemon[acting_player][in_play_idx] = None;
                        proof {
                            assert(state@.in_play_pokemon =~~= pre.in_play_pokemon.update(
                                acting_player as int,
                                pre.in_play_pokemon[acting_player as int].update(
                                    in_play_idx as int,
                                    None,
                                ),
                            ));
                            assert(pre.in_play_pokemon[acting_player as int][in_play_idx as int] is None);
                            assert(state@.in_play_pokemon =~~= pre.in_play_pokemon);
                            assert(state@ =~~= pre);
                        }
                    },
                }
            },
            ToolId::PA010RockyHelmet => {
            },
        }
    }

/// After a Giant Cape lands on an occupied slot, the snapshot is the old one
/// with only that slot's hit points raised.
proof fn lemma_tool_update(pre: StateV, post: StateV, p: int, i: int)
    requires
        pre.wf(),
        0 <= p < 2,
        0 <= i < 4,
        pre.slot(p, i) is Some,
        post =~~= (StateV {
            in_play_pokemon: post.in_play_pokemon,
            ..pre
        }),
        post.in_play_pokemon =~~= pre.in_play_pokemon.update(
            p,
            pre.in_play_pokemon[p].update(
                i,
                Some(
                    PlayedCard {
                        remaining_hp: spec_plus_twenty(pre.slot(p, i)->0.remaining_hp),
                        total_hp: spec_plus_twenty(pre.slot(p, i)->0.total_hp),
                        ..pre.slot(p, i)->0
                    },
                ),
            ),
        ),
    ensures
        post.wf(),
        post.same_card_counts(pre),
{
    assert forall|q: int| 0 <= q < 2 implies post.card_count(q) == pre.card_count(q) by {
        if q == p {
            lemma_slots_cards_update_wrap(pre.in_play_pokemon[p], i, post.in_play_pokemon[p][i]);
        }
    }
}

/// Wrapper to apply `lemma_slots_cards_update` with an equal-count new slot.
proof fn lemma_slots_cards_update_wrap(
    row: Seq<Option<PlayedCard>>,
    i: int,
    v: Option<PlayedCard>,
)
    requires
        0 <= i < row.len(),
        crate::state::spec_slot_cards(v) == crate::state::spec_slot_cards(row[i]),
    ensures
        crate::state::spec_slots_cards(row.update(i, v)) == crate::state::spec_slots_cards(row),
{
    crate::state::lemma_slots_cards_update(row, i, v);
}

} // verus!
