use vstd::prelude::*;
use vstd::string::StrSliceExecFns;
use vstd::string::StringExecFns;

verus! {

/// Character-for-character equality of two string slices.
pub fn str_eq(a: &str, b: &str) -> (r: bool)
    ensures
        r == (a@ == b@),
{
    let alen = a.unicode_len();
    let blen = b.unicode_len();
    if alen != blen {
        return false;
    }
    let mut i: usize = 0;
    while i < alen
        invariant
            i <= alen,
            alen == a@.len(),
            blen == b@.len(),
            alen == blen,
            forall|j: int| 0 <= j < i ==> a@[j] == b@[j],
        decreases alen - i,
    {
        if a.get_char(i) != b.get_char(i) {
            return false;
        }
        i += 1;
    }
    proof {
        assert(a@ =~= b@);
    }
    true
}

/// The ten elemental energy types of the game.
#[derive(Debug, Clone, Copy, PartialEq, Eq, Hash, PartialOrd, Ord, Structural)]
pub enum EnergyType {
    Grass,
    Fire,
    Water,
    Lightning,
    Psychic,
    Fighting,
    Darkness,
    Metal,
    Dragon,
    Colorless,
}

impl EnergyType {
    /// The canonical name of the energy type, as written in deck lists.
    pub open spec fn spec_name(self) -> Seq<char> {
        match self {
            EnergyType::Grass => "Grass"@,
            EnergyType::Fire => "Fire"@,
            EnergyType::Water => "Water"@,
            EnergyType::Lightning => "Lightning"@,
            EnergyType::Psychic => "Psychic"@,
            EnergyType::Fighting => "Fighting"@,
            EnergyType::Darkness => "Darkness"@,
            EnergyType::Metal => "Metal"@,
            EnergyType::Dragon => "Dragon"@,
            EnergyType::Colorless => "Colorless"@,
        }
    }

    /// Renders the energy type under its canonical name.
    pub fn name(&self) -> (r: String)
        ensures
            r@ == self.spec_name(),
    {
        match self {
            EnergyType::Grass => String::from_str("Grass"),
            EnergyType::Fire => String::from_str("Fire"),
            EnergyType::Water => String::from_str("Water"),
            EnergyType::Lightning => String::from_str("Lightning"),
            EnergyType::Psychic => String::from_str("Psychic"),
            EnergyType::Fighting => String::from_str("Fighting"),
            EnergyType::Darkness => String::from_str("Darkness"),
            EnergyType::Metal => String::from_str("Metal"),
            EnergyType::Dragon => String::from_str("Dragon"),
            EnergyType::Colorless => String::from_str("Colorless"),
        }
    }

    /// Parses a canonical energy-type name; any other string is rejected.
    pub fn from_str(s: &str) -> (r: Option<EnergyType>)
        ensures
            match r {
                Some(e) => s@ == e.spec_name(),
                None => forall|e: EnergyType| s@ != e.spec_name(),
            },
    {
        if str_eq(s, "Grass") {
            Some(EnergyType::Grass)
        } else if str_eq(s, "Fire") {
            Some(EnergyType::Fire)
        } else if str_eq(s, "Water") {
            Some(EnergyType::Water)
        } else if str_eq(s, "Lightning") {
            Some(EnergyType::Lightning)
        } else if str_eq(s, "Psychic") {
            Some(EnergyType::Psychic)
        } else if str_eq(s, "Fighting") {
            Some(EnergyType::Fighting)
        } else if str_eq(s, "Darkness") {
            Some(EnergyType::Darkness)
        } else if str_eq(s, "Metal") {
            Some(EnergyType::Metal)
        } else if str_eq(s, "Dragon") {
            Some(EnergyType::Dragon)
        } else if str_eq(s, "Colorless") {
            Some(EnergyType::Colorless)
        } else {
            None
        }
    }
}

} // verus!

use crate::tool_ids::ToolId;

verus! {

/// The three kinds of trainer card.
#[derive(Debug, Clone, Copy, PartialEq, Eq, Hash, Structural)]
pub enum TrainerType {
    Item,
    Supporter,
    Tool,
}

/// The three status conditions a Pokemon can carry.
#[derive(Debug, Clone, Copy, PartialEq, Eq, Hash, Structural)]
pub enum StatusCondition {
    Poisoned,
    Paralyzed,
    Asleep,
}

/// Mathematical image of an [`Ability`].
#[verifier::ext_equal]
pub ghost struct AbilityV {
    pub title: Seq<char>,
    pub effect: Seq<char>,
}

/// Mathematical image of an [`Attack`].
#[verifier::ext_equal]
pub ghost struct AttackV {
    pub energy_required: Seq<EnergyType>,
    pub title: Seq<char>,
    pub fixed_damage: u32,
    pub effect: Option<Seq<char>>,
}

/// Mathematical image of a [`PokemonCard`].
#[verifier::ext_equal]
pub ghost struct PokemonCardV {
    pub id: Seq<char>,
    pub name: Seq<char>,
    pub stage: u8,
    pub evolves_from: Option<Seq<char>>,
    pub hp: u32,
    pub energy_type: EnergyType,
    pub ability: Option<AbilityV>,
    pub attacks: Seq<AttackV>,
    pub weakness: Option<EnergyType>,
    pub retreat_cost: Seq<EnergyType>,
    pub rarity: Seq<char>,
    pub booster_pack: Seq<char>,
}

/// Mathematical image of a [`TrainerCard`].
#[verifier::ext_equal]
pub ghost struct TrainerCardV {
    pub id: Seq<char>,
    pub numeric_id: u16,
    pub name: Seq<char>,
    pub trainer_card_type: TrainerType,
    pub effect: Seq<char>,
    pub rarity: Seq<char>,
    pub booster_pack: Seq<char>,
}

/// Mathematical image of a [`Card`].
#[verifier::ext_equal]
pub ghost enum CardV {
    Pokemon(PokemonCardV),
    Trainer(TrainerCardV),
}

/// An ability printed on a Pokemon card.
#[derive(Debug, PartialEq, Eq, Hash)]
pub struct Ability {
    pub title: String,
    pub effect: String,
}

impl View for Ability {
    type V = AbilityV;

    open spec fn view(&self) -> AbilityV {
        AbilityV { title: self.title@, effect: self.effect@ }
    }
}

impl Clone for Ability {
    fn clone(&self) -> (r: Self)
        ensures
            r@ == self@,
    {
        Ability { title: self.title.clone(), effect: self.effect.clone() }
    }
}

/// An attack printed on a Pokemon card.
#[derive(Debug, PartialEq, Eq, Hash)]
pub struct Attack {
    pub energy_required: Vec<EnergyType>,
    pub title: String,
    pub fixed_damage: u32,
    pub effect: Option<String>,
}

impl View for Attack {
    type V = AttackV;

    open spec fn view(&self) -> AttackV {
        AttackV {
            energy_required: self.energy_required@,
            title: self.title@,
            fixed_damage: self.fixed_damage,
            effect: match self.effect {
                Some(e) => Some(e@),
                None => None,
            },
        }
    }
}

impl Clone for Attack {
    fn clone(&self) -> (r: Self)
        ensures
            r@ == self@,
    {
        let r = Attack {
            energy_required: self.energy_required.clone(),
            title: self.title.clone(),
            fixed_damage: self.fixed_damage,
            effect: self.effect.clone(),
        };
        proof {
            assert(r.energy_required@ =~= self.energy_required@);
            assert(r@ =~= self@);
        }
        r
    }
}

/// A Pokemon card as printed: its stats, attacks and evolution line.
#[derive(Debug, Eq, Hash)]
pub struct PokemonCard {
    pub id: String,
    pub name: String,
    pub stage: u8,
    pub evolves_from: Option<String>,
    pub hp: u32,
    pub energy_type: EnergyType,
    pub ability: Option<Ability>,
    pub attacks: Vec<Attack>,
    pub weakness: Option<EnergyType>,
    pub retreat_cost: Vec<EnergyType>,
    pub rarity: String,
    pub booster_pack: String,
}

impl View for PokemonCard {
    type V = PokemonCardV;

    open spec fn view(&self) -> PokemonCardV {
        PokemonCardV {
            id: self.id@,
            name: self.name@,
            stage: self.stage,
            evolves_from: match self.evolves_from {
                Some(n) => Some(n@),
                None => None,
            },
            hp: self.hp,
            energy_type: self.energy_type,
            ability: match self.ability {
                Some(a) => Some(a@),
                None => None,
            },
            attacks: self.attacks@.map_values(|a: Attack| a@),
            weakness: self.weakness,
            retreat_cost: self.retreat_cost@,
            rarity: self.rarity@,
            booster_pack: self.booster_pack@,
        }
    }
}

/// Two Pokemon cards are the same card exactly when their printed identifiers agree.
impl PartialEq for PokemonCard {
    fn eq(&self, other: &PokemonCard) -> (r: bool) {
        self.id == other.id
    }
}

impl vstd::std_specs::cmp::PartialEqSpecImpl for PokemonCard {
    open spec fn obeys_eq_spec() -> bool {
        true
    }

    open spec fn eq_spec(&self, other: &PokemonCard) -> bool {
        self.id@ == other.id@
    }
}

impl Clone for PokemonCard {
    fn clone(&self) -> (r: Self)
        ensures
            r@ == self@,
    {
        let r = PokemonCard {
            id: self.id.clone(),
            name: self.name.clone(),
            stage: self.stage,
            evolves_from: self.evolves_from.clone(),
            hp: self.hp,
            energy_type: self.energy_type,
            ability: self.ability.clone(),
            attacks: clone_attacks(&self.attacks),
            weakness: self.weakness,
            retreat_cost: self.retreat_cost.clone(),
            rarity: self.rarity.clone(),
            booster_pack: self.booster_pack.clone(),
        };
        proof {
            assert(r.retreat_cost@ =~= self.retreat_cost@);
            assert(r@ =~= self@);
        }
        r
    }
}

/// Copies a list of attacks, preserving each attack's mathematical image.
fn clone_attacks(attacks: &Vec<Attack>) -> (r: Vec<Attack>)
    ensures
        r@.map_values(|a: Attack| a@) == attacks@.map_values(|a: Attack| a@),
{
    let mut r: Vec<Attack> = Vec::new();
    let mut i: usize = 0;
    while i < attacks.len()
        invariant
            i <= attacks@.len(),
            r@.len() == i,
            forall|j: int| 0 <= j < i ==> #[trigger] r@[j]@ == attacks@[j]@,
        decreases attacks@.len() - i,
    {
        r.push(attacks[i].clone());
        i += 1;
    }
    proof {
        assert(r@.map_values(|a: Attack| a@) =~= attacks@.map_values(|a: Attack| a@));
    }
    r
}

/// A trainer card as printed.
#[derive(Debug, Eq, Hash)]
pub struct TrainerCard {
    pub id: String,
    pub numeric_id: u16,
    pub name: String,
    pub trainer_card_type: TrainerType,
    pub effect: String,
    pub rarity: String,
    pub booster_pack: String,
}

impl View for TrainerCard {
    type V = TrainerCardV;

    open spec fn view(&self) -> TrainerCardV {
        TrainerCardV {
            id: self.id@,
            numeric_id: self.numeric_id,
            name: self.name@,
            trainer_card_type: self.trainer_card_type,
            effect: self.effect@,
            rarity: self.rarity@,
            booster_pack: self.booster_pack@,
        }
    }
}

/// Two trainer cards are the same card exactly when their printed identifiers agree.
impl PartialEq for TrainerCard {
    fn eq(&self, other: &TrainerCard) -> (r: bool) {
        self.id == other.id
    }
}

impl vstd::std_specs::cmp::PartialEqSpecImpl for TrainerCard {
    open spec fn obeys_eq_spec() -> bool {
        true
    }

    open spec fn eq_spec(&self, other: &TrainerCard) -> bool {
        self.id@ == other.id@
    }
}

impl Clone for TrainerCard {
    fn clone(&self) -> (r: Self)
        ensures
            r@ == self@,
    {
        TrainerCard {
            id: self.id.clone(),
            numeric_id: self.numeric_id,
            name: self.name.clone(),
            trainer_card_type: self.trainer_card_type,
            effect: self.effect.clone(),
            rarity: self.rarity.clone(),
            booster_pack: self.booster_pack.clone(),
        }
    }
}

/// A card: either a Pokemon or a trainer.
#[derive(Debug, Eq, Hash)]
pub enum Card {
    Pokemon(PokemonCard),
    Trainer(TrainerCard),
}

impl View for Card {
    type V = CardV;

    open spec fn view(&self) -> CardV {
        match self {
            Card::Pokemon(p) => CardV::Pokemon(p@),
            Card::Trainer(t) => CardV::Trainer(t@),
        }
    }
}

/// Two cards are the same exactly when they are of the same kind and their
/// printed identifiers agree.
// Card equality compares the printed identifier, while the derived hash
// covers every field. For catalog-built cards the two agree; a hand-built
// card that reuses an identifier with different stats would compare equal
// yet hash apart, so construct cards through the catalog.
impl PartialEq for Card {
    fn eq(&self, other: &Card) -> (r: bool) {
        match (self, other) {
            (Card::Pokemon(a), Card::Pokemon(b)) => a == b,
            (Card::Trainer(a), Card::Trainer(b)) => a == b,
            _ => false,
        }
    }
}

impl vstd::std_specs::cmp::PartialEqSpecImpl for Card {
    open spec fn obeys_eq_spec() -> bool {
        true
    }

    open spec fn eq_spec(&self, other: &Card) -> bool {
        spec_card_eq(*self, *other)
    }
}

/// The card-identity relation used throughout the engine: same kind, same identifier.
pub open spec fn spec_card_eq(a: Card, b: Card) -> bool {
    match (a, b) {
        (Card::Pokemon(x), Card::Pokemon(y)) => x.id@ == y.id@,
        (Card::Trainer(x), Card::Trainer(y)) => x.id@ == y.id@,
        _ => false,
    }
}

impl Clone for Card {
    fn clone(&self) -> (r: Self)
        ensures
            r@ == self@,
    {
        match self {
            Card::Pokemon(p) => Card::Pokemon(p.clone()),
            Card::Trainer(t) => Card::Trainer(t.clone()),
        }
    }
}

} // verus!

verus! {

impl Card {
    /// The printed identifier of the card.
    pub open spec fn spec_id(self) -> Seq<char> {
        match self {
            Card::Pokemon(p) => p.id@,
            Card::Trainer(t) => t.id@,
        }
    }

    /// The printed name of the card.
    pub open spec fn spec_name(self) -> Seq<char> {
        match self {
            Card::Pokemon(p) => p.name@,
            Card::Trainer(t) => t.name@,
        }
    }

    /// Whether a name is that of an Ex Pokemon: it ends in a separate word `ex`.
    pub open spec fn spec_name_is_ex(name: Seq<char>) -> bool {
        name.len() >= 3 && name[name.len() - 3] == ' ' && name[name.len() - 2] == 'e'
            && name[name.len() - 1] == 'x'
    }

    /// Whether the card is an Ex Pokemon, whose knockout awards two points.
    pub open spec fn spec_is_ex(self) -> bool {
        self is Pokemon && Self::spec_name_is_ex(self.spec_name())
    }

    /// Whether the card is a Basic (stage 0) Pokemon.
    pub open spec fn spec_is_basic(self) -> bool {
        match self {
            Card::Pokemon(p) => p.stage == 0,
            Card::Trainer(_) => false,
        }
    }

    /// Whether the card is a Supporter trainer.
    pub open spec fn spec_is_support(self) -> bool {
        match self {
            Card::Pokemon(_) => false,
            Card::Trainer(t) => t.trainer_card_type == TrainerType::Supporter,
        }
    }

    /// The elemental type of the card, for Pokemon cards.
    pub open spec fn spec_type(self) -> Option<EnergyType> {
        match self {
            Card::Pokemon(p) => Some(p.energy_type),
            Card::Trainer(_) => None,
        }
    }

    pub fn get_id(&self) -> (r: String)
        ensures
            r@ == self.spec_id(),
    {
        match self {
            Card::Pokemon(p) => p.id.clone(),
            Card::Trainer(t) => t.id.clone(),
        }
    }

    pub fn get_name(&self) -> (r: String)
        ensures
            r@ == self.spec_name(),
    {
        match self {
            Card::Pokemon(p) => p.name.clone(),
            Card::Trainer(t) => t.name.clone(),
        }
    }

    pub fn is_ex(&self) -> (r: bool)
        ensures
            r == self.spec_is_ex(),
    {
        match self {
            Card::Pokemon(p) => {
                let name = p.name.as_str();
                let len = name.unicode_len();
                len >= 3 && name.get_char(len - 3) == ' ' && name.get_char(len - 2) == 'e'
                    && name.get_char(len - 1) == 'x'
            },
            Card::Trainer(_) => false,
        }
    }

    pub fn is_basic(&self) -> (r: bool)
        ensures
            r == self.spec_is_basic(),
    {
        match self {
            Card::Pokemon(p) => p.stage == 0,
            Card::Trainer(_) => false,
        }
    }

    pub fn is_support(&self) -> (r: bool)
        ensures
            r == self.spec_is_support(),
    {
        match self {
            Card::Pokemon(_) => false,
            Card::Trainer(t) => matches!(t.trainer_card_type, TrainerType::Supporter),
        }
    }

    /// Whether the card is a Psychic-type Pokemon.
    pub fn is_psychic_type(&self) -> (r: bool)
        ensures
            r == (self.spec_type() == Some(EnergyType::Psychic)),
    {
        match self {
            Card::Pokemon(p) => matches!(p.energy_type, EnergyType::Psychic),
            Card::Trainer(_) => false,
        }
    }

    pub fn get_type(&self) -> (r: Option<EnergyType>)
        ensures
            r == self.spec_type(),
    {
        match self {
            Card::Pokemon(p) => Some(p.energy_type),
            Card::Trainer(_) => None,
        }
    }

    pub fn get_ability(&self) -> (r: Option<&Ability>)
        ensures
            match (r, self) {
                (Some(a), Card::Pokemon(p)) => p.ability == Some(*a),
                (None, Card::Pokemon(p)) => p.ability is None,
                (None, Card::Trainer(_)) => true,
                _ => false,
            },
    {
        match self {
            Card::Pokemon(p) => p.ability.as_ref(),
            Card::Trainer(_) => None,
        }
    }

    /// The attacks printed on a Pokemon card. Asking a trainer card for its
    /// attacks is a contract violation, so trainer cards are excluded.
    pub fn get_attacks(&self) -> (r: &Vec<Attack>)
        requires
            self is Pokemon,
        ensures
            r == self->Pokemon_0.attacks,
    {
        match self {
            Card::Pokemon(p) => &p.attacks,
            Card::Trainer(_) => unreached(),
        }
    }
}

} // verus!

verus! {

/// Mathematical image of a [`PlayedCard`].
#[verifier::ext_equal]
pub ghost struct PlayedCardV {
    pub card: CardV,
    pub remaining_hp: u32,
    pub total_hp: u32,
    pub attached_energy: Seq<EnergyType>,
    pub attached_tool: Option<ToolId>,
    pub played_this_turn: bool,
    pub ability_used: bool,
    pub poisoned: bool,
    pub paralyzed: bool,
    pub asleep: bool,
    pub cards_behind: Seq<CardV>,
}

/// A Pokemon on the field: the card, its current condition, and what it carries.
#[derive(Debug, PartialEq, Eq, Hash)]
pub struct PlayedCard {
    pub card: Card,
    pub remaining_hp: u32,
    pub total_hp: u32,
    pub attached_energy: Vec<EnergyType>,
    pub attached_tool: Option<ToolId>,
    pub played_this_turn: bool,
    pub ability_used: bool,
    pub poisoned: bool,
    pub paralyzed: bool,
    pub asleep: bool,
    pub cards_behind: Vec<Card>,
}

impl View for PlayedCard {
    type V = PlayedCardV;

    open spec fn view(&self) -> PlayedCardV {
        PlayedCardV {
            card: self.card@,
            remaining_hp: self.remaining_hp,
            total_hp: self.total_hp,
            attached_energy: self.attached_energy@,
            attached_tool: self.attached_tool,
            played_this_turn: self.played_this_turn,
            ability_used: self.ability_used,
            poisoned: self.poisoned,
            paralyzed: self.paralyzed,
            asleep: self.asleep,
            cards_behind: self.cards_behind@.map_values(|c: Card| c@),
        }
    }
}

impl Clone for PlayedCard {
    fn clone(&self) -> (r: Self)
        ensures
            r@ == self@,
    {
        let r = PlayedCard {
            card: self.card.clone(),
            remaining_hp: self.remaining_hp,
            total_hp: self.total_hp,
            attached_energy: self.attached_energy.clone(),
            attached_tool: self.attached_tool,
            played_this_turn: self.played_this_turn,
            ability_used: self.ability_used,
            poisoned: self.poisoned,
            paralyzed: self.paralyzed,
            asleep: self.asleep,
            cards_behind: clone_cards(&self.cards_behind),
        };
        proof {
            assert(r.attached_energy@ =~= self.attached_energy@);
            assert(r@ =~= self@);
        }
        r
    }
}

/// Copies a list of cards, preserving each card's mathematical image.
pub fn clone_cards(cards: &Vec<Card>) -> (r: Vec<Card>)
    ensures
        r@.map_values(|c: Card| c@) == cards@.map_values(|c: Card| c@),
        r@.len() == cards@.len(),
{
    let mut r: Vec<Card> = Vec::new();
    let mut i: usize = 0;
    while i < cards.len()
        invariant
            i <= cards@.len(),
            r@.len() == i,
            forall|j: int| 0 <= j < i ==> #[trigger] r@[j]@ == cards@[j]@,
        decreases cards@.len() - i,
    {
        r.push(cards[i].clone());
        i += 1;
    }
    proof {
        assert(r@.map_values(|c: Card| c@) =~= cards@.map_values(|c: Card| c@));
    }
    r
}

/// The position, counting from the front, of the first occurrence of `e` in `s`,
/// or a negative value when `e` does not occur.
pub open spec fn first_energy_index(s: Seq<EnergyType>, e: EnergyType) -> int
    decreases s.len(),
{
    if s.len() == 0 {
        -1
    } else if s[0] == e {
        0
    } else {
        let rest = first_energy_index(s.drop_first(), e);
        if rest < 0 {
            -1
        } else {
            rest + 1
        }
    }
}

/// What `first_energy_index` finds: the first occurrence, or nothing anywhere.
pub proof fn lemma_first_energy_index(s: Seq<EnergyType>, e: EnergyType)
    ensures
        first_energy_index(s, e) < 0 ==> forall|j: int| 0 <= j < s.len() ==> s[j] != e,
        first_energy_index(s, e) >= 0 ==> {
            let i = first_energy_index(s, e);
            &&& i < s.len()
            &&& s[i] == e
            &&& forall|j: int| 0 <= j < i ==> s[j] != e
        },
    decreases s.len(),
{
    if s.len() > 0 && s[0] != e {
        lemma_first_energy_index(s.drop_first(), e);
        assert(forall|j: int| 1 <= j < s.len() ==> s[j] == s.drop_first()[j - 1]);
    }
}

impl PlayedCard {
    /// How much damage the Pokemon has taken.
    pub open spec fn spec_damage_taken(self) -> int {
        self.total_hp - self.remaining_hp
    }

    /// Restores up to `amount` hit points, never beyond the printed total.
    pub fn heal(&mut self, amount: u32)
        requires
            old(self).remaining_hp <= old(self).total_hp,
        ensures
            *final(self) == (PlayedCard { remaining_hp: final(self).remaining_hp, ..*old(self) }),
            final(self).remaining_hp == if old(self).remaining_hp + amount
                >= old(self).total_hp { old(self).total_hp } else {
                (old(self).remaining_hp + amount) as u32
            },
    {
        let room = self.total_hp - self.remaining_hp;
        if amount >= room {
            self.remaining_hp = self.total_hp;
        } else {
            self.remaining_hp = self.remaining_hp + amount;
        }
    }

    /// Removes `amount` hit points, stopping at zero.
    pub fn apply_damage(&mut self, amount: u32)
        ensures
            *final(self) == (PlayedCard { remaining_hp: final(self).remaining_hp, ..*old(self) }),
            final(self).remaining_hp == if amount >= old(self).remaining_hp { 0u32 } else {
                (old(self).remaining_hp - amount) as u32
            },
    {
        if amount >= self.remaining_hp {
            self.remaining_hp = 0;
        } else {
            self.remaining_hp = self.remaining_hp - amount;
        }
    }

    /// Attaches `count` energy of one type.
    pub fn attach_energy(&mut self, energy: &EnergyType, count: u32)
        ensures
            *final(self) == (PlayedCard {
                attached_energy: final(self).attached_energy,
                ..*old(self)
            }),
            final(self).attached_energy@ == old(self).attached_energy@ + Seq::new(
                count as nat,
                |i: int| *energy,
            ),
    {
        let mut i: u32 = 0;
        while i < count
            invariant
                i <= count,
                *self == (PlayedCard { attached_energy: self.attached_energy, ..*old(self) }),
                self.attached_energy@ == old(self).attached_energy@ + Seq::new(
                    i as nat,
                    |j: int| *energy,
                ),
            decreases count - i,
        {
            self.attached_energy.push(*energy);
            proof {
                assert(self.attached_energy@ =~= old(self).attached_energy@ + Seq::new(
                    (i + 1) as nat,
                    |j: int| *energy,
                ));
            }
            i = i + 1;
        }
        proof {
            assert(self.attached_energy@ =~= old(self).attached_energy@ + Seq::new(
                count as nat,
                |j: int| *energy,
            ));
        }
    }

    /// Removes the first attached energy of the given type, if one is attached.
    pub fn discard_energy(&mut self, energy: &EnergyType)
        ensures
            *final(self) == (PlayedCard {
                attached_energy: final(self).attached_energy,
                ..*old(self)
            }),
            ({
                let i = first_energy_index(old(self).attached_energy@, *energy);
                if i < 0 {
                    final(self).attached_energy@ == old(self).attached_energy@
                } else {
                    final(self).attached_energy@ == old(self).attached_energy@.remove(i)
                }
            }),
    {
        proof {
            lemma_first_energy_index(self.attached_energy@, *energy);
        }
        let ghost fi = first_energy_index(self.attached_energy@, *energy);
        let mut i: usize = 0;
        while i < self.attached_energy.len()
            invariant
                i <= self.attached_energy@.len(),
                *self == *old(self),
                fi == first_energy_index(self.attached_energy@, *energy),
                fi < 0 ==> forall|j: int|
                    0 <= j < self.attached_energy@.len() ==> self.attached_energy@[j] != *energy,
                fi >= 0 ==> fi < self.attached_energy@.len()
                    && self.attached_energy@[fi as int] == *energy && forall|j: int|
                    0 <= j < fi ==> self.attached_energy@[j] != *energy,
                forall|j: int| 0 <= j < i ==> self.attached_energy@[j] != *energy,
            decreases self.attached_energy@.len() - i,
        {
            if self.attached_energy[i] == *energy {
                assert(i == fi);
                self.attached_energy.remove(i);
                return ;
            }
            i += 1;
        }
    }

    /// Whether the Pokemon has taken any damage.
    pub fn is_damaged(&self) -> (r: bool)
        ensures
            r == (self.remaining_hp < self.total_hp),
    {
        self.remaining_hp < self.total_hp
    }

    /// Whether the Pokemon is poisoned.
    pub fn is_poisoned(&self) -> (r: bool)
        ensures
            r == self.poisoned,
    {
        self.poisoned
    }

    /// Whether a tool card is attached.
    pub fn has_tool_attached(&self) -> (r: bool)
        ensures
            r == self.attached_tool.is_some(),
    {
        self.attached_tool.is_some()
    }

    /// The printed name of the underlying card.
    pub fn get_name(&self) -> (r: String)
        ensures
            r@ == self.card.spec_name(),
    {
        self.card.get_name()
    }

    /// The elemental type of the underlying card.
    pub fn get_energy_type(&self) -> (r: Option<EnergyType>)
        ensures
            r == self.card.spec_type(),
    {
        self.card.get_type()
    }

    /// The attacks of the underlying Pokemon card.
    pub fn get_attacks(&self) -> (r: &Vec<Attack>)
        requires
            self.card is Pokemon,
        ensures
            r == self.card->Pokemon_0.attacks,
    {
        self.card.get_attacks()
    }
}


/// A card's Basic-ness is determined by its mathematical image.
pub proof fn lemma_view_eq_is_basic(a: Card, b: Card)
    requires
        a@ == b@,
    ensures
        a.spec_is_basic() == b.spec_is_basic(),
{
    match (a, b) {
        (Card::Pokemon(x), Card::Pokemon(y)) => {
            assert(x@ == y@);
            assert(x@.stage == y@.stage);
        },
        (Card::Trainer(_), Card::Trainer(_)) => {},
        (Card::Pokemon(_), Card::Trainer(_)) => {
            assert(false);
        },
        (Card::Trainer(_), Card::Pokemon(_)) => {
            assert(false);
        },
    }
}

} // verus!

verus! {

impl PokemonCard {
    /// The card's one-line label: its printed identifier and name.
    pub fn debug_label(&self) -> (r: String)
        ensures
            r@ == self.id@ + " "@ + self.name@,
    {
        let mut s = self.id.clone();
        s.append(" ");
        s.append(self.name.as_str());
        proof {
            assert(s@ =~= self.id@ + " "@ + self.name@);
        }
        s
    }
}

impl TrainerCard {
    /// The card's one-line label: its printed identifier and name.
    pub fn debug_label(&self) -> (r: String)
        ensures
            r@ == self.id@ + " "@ + self.name@,
    {
        let mut s = self.id.clone();
        s.append(" ");
        s.append(self.name.as_str());
        proof {
            assert(s@ =~= self.id@ + " "@ + self.name@);
        }
        s
    }
}

} // verus!
