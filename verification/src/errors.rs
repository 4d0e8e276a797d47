use vstd::prelude::*;
use vstd::string::StringExecFns;

verus! {

/// The decimal digit character for `d`.
pub open spec fn spec_digit_char(d: int) -> char {
    ((d + 48) as u8) as char
}

/// The decimal rendering of a non-negative integer, most significant digit first.
pub open spec fn spec_decimal(n: int) -> Seq<char>
    recommends
        n >= 0,
    decreases n,
{
    if n < 10 {
        seq![spec_digit_char(n)]
    } else {
        spec_decimal(n / 10).push(spec_digit_char(n % 10))
    }
}

/// One decimal digit as a string slice.
fn digit_str(d: u8) -> (r: &'static str)
    requires
        d < 10,
    ensures
        r@ == seq![spec_digit_char(d as int)],
{
    let r: &'static str = match d {
        0u8 => "0",
        1u8 => "1",
        2u8 => "2",
        3u8 => "3",
        4u8 => "4",
        5u8 => "5",
        6u8 => "6",
        7u8 => "7",
        8u8 => "8",
        _ => "9",
    };
    proof {
        reveal_strlit("0");
        reveal_strlit("1");
        reveal_strlit("2");
        reveal_strlit("3");
        reveal_strlit("4");
        reveal_strlit("5");
        reveal_strlit("6");
        reveal_strlit("7");
        reveal_strlit("8");
        reveal_strlit("9");
        assert(r@ =~= seq![spec_digit_char(d as int)]);
    }
    r
}

/// Renders a non-negative integer in decimal.
pub fn decimal_string(n: u128) -> (r: String)
    ensures
        r@ == spec_decimal(n as int),
    decreases n,
{
    if n < 10 {
        String::from_str(digit_str(n as u8))
    } else {
        let mut s = decimal_string(n / 10);
        s.append(digit_str((n % 10) as u8));
        proof {
            assert(s@ =~= spec_decimal(n as int));
        }
        s
    }
}

/// `parts[i..]` joined by `sep`.
pub open spec fn spec_join_from(parts: Seq<Seq<char>>, sep: Seq<char>, i: int) -> Seq<char>
    decreases parts.len() - i,
{
    if i < 0 || i >= parts.len() {
        Seq::empty()
    } else if i == parts.len() - 1 {
        parts[i]
    } else {
        parts[i] + sep + spec_join_from(parts, sep, i + 1)
    }
}

/// All of `parts` joined by `sep`.
pub open spec fn spec_join(parts: Seq<Seq<char>>, sep: Seq<char>) -> Seq<char> {
    spec_join_from(parts, sep, 0)
}

/// The views of a list of strings.
pub open spec fn spec_str_views(parts: Seq<String>) -> Seq<Seq<char>> {
    parts.map_values(|s: String| s@)
}

fn join_from(parts: &Vec<String>, sep: &str, i: usize) -> (r: String)
    requires
        i <= parts@.len(),
    ensures
        r@ == spec_join_from(spec_str_views(parts@), sep@, i as int),
    decreases parts@.len() - i,
{
    if i >= parts.len() {
        String::new()
    } else if i == parts.len() - 1 {
        parts[i].clone()
    } else {
        let mut s = parts[i].clone();
        s.append(sep);
        let rest = join_from(parts, sep, i + 1);
        s.append(rest.as_str());
        proof {
            assert(s@ =~= spec_join_from(spec_str_views(parts@), sep@, i as int));
        }
        s
    }
}

/// Joins a list of strings with a separator.
pub fn join_strings(parts: &Vec<String>, sep: &str) -> (r: String)
    ensures
        r@ == spec_join(spec_str_views(parts@), sep@),
{
    join_from(parts, sep, 0)
}

/// A list of strings rendered with brackets and quotes, `["a", "b"]`.
pub open spec fn spec_quoted_list(parts: Seq<Seq<char>>) -> Seq<char> {
    "["@ + spec_join(parts.map_values(|p: Seq<char>| "\""@ + p + "\""@), ", "@) + "]"@
}

fn quoted_list(parts: &Vec<String>) -> (r: String)
    ensures
        r@ == spec_quoted_list(spec_str_views(parts@)),
{
    let mut quoted: Vec<String> = Vec::new();
    let mut i: usize = 0;
    while i < parts.len()
        invariant
            i <= parts@.len(),
            quoted@.len() == i,
            forall|j: int|
                0 <= j < i ==> #[trigger] quoted@[j]@ == "\""@ + parts@[j]@ + "\""@,
        decreases parts@.len() - i,
    {
        let mut q = String::from_str("\"");
        q.append(parts[i].as_str());
        q.append("\"");
        quoted.push(q);
        i += 1;
    }
    let mut r = String::from_str("[");
    let joined = join_strings(&quoted, ", ");
    r.append(joined.as_str());
    r.append("]");
    proof {
        assert(spec_str_views(quoted@) =~= spec_str_views(parts@).map_values(
            |p: Seq<char>| "\""@ + p + "\""@,
        ));
        assert(r@ =~= spec_quoted_list(spec_str_views(parts@)));
    }
    r
}

/// Every fault the engine can report, with enough context to reproduce it.
#[derive(Debug, Clone, PartialEq, Eq)]
pub enum GameError {
    InvalidCardPosition { position: usize, max: usize },
    CardNotInHand { card_name: String, player: usize },
    NoPokemonAtPosition { player: usize, position: usize },
    NoActivePokemon { player: usize },
    EmptyDeck { player: usize },
    InvalidPlayer { player: usize },
    InvalidAction { action: String, reason: String },
    IllegalMove { description: String },
    InvalidEvolution { reason: String },
    InvalidAttachment { reason: String },
    CardNotFound { card_id: u16 },
    InvalidCardType { expected: String, found: String },
    MissingEnergy { required: Vec<String>, available: Vec<String> },
    GameAlreadyOver,
    InvalidGameState { description: String },
    NoLegalMoves { player: usize },
    InvalidDeckFormat { reason: String },
    DeckValidationFailed { errors: Vec<String> },
    InsufficientCards { required: usize, found: usize },
    InvalidConfiguration { setting: String, value: String },
    MissingRequiredField { field: String },
    PlayerError { player_type: String, error: String },
    AICalculationError { description: String },
    HookExecutionFailed { hook_name: String, error: String },
    InternalError { context: String, details: String },
    NotImplemented { feature: String },
}

/// The human-readable account of an error.
pub open spec fn spec_message(e: GameError) -> Seq<char> {
    match e {
        GameError::InvalidCardPosition { position, max } => "Invalid card position "@
            + spec_decimal(position as int) + ", max allowed is "@ + spec_decimal(max as int),
        GameError::CardNotInHand { card_name, player } => "Card '"@ + card_name@
            + "' not found in player "@ + spec_decimal(player + 1) + "'s hand"@,
        GameError::NoPokemonAtPosition { player, position } => "No Pokemon at position "@
            + spec_decimal(position as int) + " for player "@ + spec_decimal(player + 1),
        GameError::NoActivePokemon { player } => "Player "@ + spec_decimal(player + 1)
            + " has no active Pokemon"@,
        GameError::EmptyDeck { player } => "Player "@ + spec_decimal(player + 1)
            + "'s deck is empty"@,
        GameError::InvalidPlayer { player } => "Invalid player index: "@ + spec_decimal(
            player as int,
        ),
        GameError::InvalidAction { action, reason } => "Invalid action '"@ + action@ + "': "@
            + reason@,
        GameError::IllegalMove { description } => "Illegal move: "@ + description@,
        GameError::InvalidEvolution { reason } => "Invalid evolution: "@ + reason@,
        GameError::InvalidAttachment { reason } => "Invalid attachment: "@ + reason@,
        GameError::CardNotFound { card_id } => "Card with ID "@ + spec_decimal(card_id as int)
            + " not found"@,
        GameError::InvalidCardType { expected, found } => "Invalid card type: expected "@
            + expected@ + ", found "@ + found@,
        GameError::MissingEnergy { required, available } => "Missing energy: required "@
            + spec_quoted_list(spec_str_views(required@)) + ", available "@ + spec_quoted_list(
            spec_str_views(available@),
        ),
        GameError::GameAlreadyOver => "Game is already over"@,
        GameError::InvalidGameState { description } => "Invalid game state: "@ + description@,
        GameError::NoLegalMoves { player } => "Player "@ + spec_decimal(player + 1)
            + " has no legal moves"@,
        GameError::InvalidDeckFormat { reason } => "Invalid deck format: "@ + reason@,
        GameError::DeckValidationFailed { errors } => "Deck validation failed: "@ + spec_join(
            spec_str_views(errors@),
            ", "@,
        ),
        GameError::InsufficientCards { required, found } => "Insufficient cards: required "@
            + spec_decimal(required as int) + ", found "@ + spec_decimal(found as int),
        GameError::InvalidConfiguration { setting, value } => "Invalid configuration: "@ + setting@
            + " = '"@ + value@ + "'"@,
        GameError::MissingRequiredField { field } => "Missing required field: "@ + field@,
        GameError::PlayerError { player_type, error } => "Player error ("@ + player_type@ + "): "@
            + error@,
        GameError::AICalculationError { description } => "AI calculation error: "@ + description@,
        GameError::HookExecutionFailed { hook_name, error } => "Hook '"@ + hook_name@
            + "' execution failed: "@ + error@,
        GameError::InternalError { context, details } => "Internal error in "@ + context@ + ": "@
            + details@,
        GameError::NotImplemented { feature } => "Feature not implemented: "@ + feature@,
    }
}

impl GameError {
    /// Renders the error for a human reader.
    pub fn message(&self) -> (r: String)
        ensures
            r@ == spec_message(*self),
    {
        let r = match self {
            GameError::InvalidCardPosition { position, max } => {
                let mut s = String::from_str("Invalid card position ");
                let d = decimal_string(*position as u128);
                s.append(d.as_str());
                s.append(", max allowed is ");
                let d = decimal_string(*max as u128);
                s.append(d.as_str());
                s
            },
            GameError::CardNotInHand { card_name, player } => {
                let mut s = String::from_str("Card '");
                s.append(card_name.as_str());
                s.append("' not found in player ");
                let d = decimal_string(*player as u128 + 1);
                s.append(d.as_str());
                s.append("'s hand");
                s
            },
            GameError::NoPokemonAtPosition { player, position } => {
                let mut s = String::from_str("No Pokemon at position ");
                let d = decimal_string(*position as u128);
                s.append(d.as_str());
                s.append(" for player ");
                let d = decimal_string(*player as u128 + 1);
                s.append(d.as_str());
                s
            },
            GameError::NoActivePokemon { player } => {
                let mut s = String::from_str("Player ");
                let d = decimal_string(*player as u128 + 1);
                s.append(d.as_str());
                s.append(" has no active Pokemon");
                s
            },
            GameError::EmptyDeck { player } => {
                let mut s = String::from_str("Player ");
                let d = decimal_string(*player as u128 + 1);
                s.append(d.as_str());
                s.append("'s deck is empty");
                s
            },
            GameError::InvalidPlayer { player } => {
                let mut s = String::from_str("Invalid player index: ");
                let d = decimal_string(*player as u128);
                s.append(d.as_str());
                s
            },
            GameError::InvalidAction { action, reason } => {
                let mut s = String::from_str("Invalid action '");
                s.append(action.as_str());
                s.append("': ");
                s.append(reason.as_str());
                s
            },
            GameError::IllegalMove { description } => {
                let mut s = String::from_str("Illegal move: ");
                s.append(description.as_str());
                s
            },
            GameError::InvalidEvolution { reason } => {
                let mut s = String::from_str("Invalid evolution: ");
                s.append(reason.as_str());
                s
            },
            GameError::InvalidAttachment { reason } => {
                let mut s = String::from_str("Invalid attachment: ");
                s.append(reason.as_str());
                s
            },
            GameError::CardNotFound { card_id } => {
                let mut s = String::from_str("Card with ID ");
                let d = decimal_string(*card_id as u128);
                s.append(d.as_str());
                s.append(" not found");
                s
            },
            GameError::InvalidCardType { expected, found } => {
                let mut s = String::from_str("Invalid card type: expected ");
                s.append(expected.as_str());
                s.append(", found ");
                s.append(found.as_str());
                s
            },
            GameError::MissingEnergy { required, available } => {
                let mut s = String::from_str("Missing energy: required ");
                let q = quoted_list(required);
                s.append(q.as_str());
                s.append(", available ");
                let q = quoted_list(available);
                s.append(q.as_str());
                s
            },
            GameError::GameAlreadyOver => String::from_str("Game is already over"),
            GameError::InvalidGameState { description } => {
                let mut s = String::from_str("Invalid game state: ");
                s.append(description.as_str());
                s
            },
            GameError::NoLegalMoves { player } => {
                let mut s = String::from_str("Player ");
                let d = decimal_string(*player as u128 + 1);
                s.append(d.as_str());
                s.append(" has no legal moves");
                s
            },
            GameError::InvalidDeckFormat { reason } => {
                let mut s = String::from_str("Invalid deck format: ");
                s.append(reason.as_str());
                s
            },
            GameError::DeckValidationFailed { errors } => {
                let mut s = String::from_str("Deck validation failed: ");
                let j = join_strings(errors, ", ");
                s.append(j.as_str());
                s
            },
            GameError::InsufficientCards { required, found } => {
                let mut s = String::from_str("Insufficient cards: required ");
                let d = decimal_string(*required as u128);
                s.append(d.as_str());
                s.append(", found ");
                let d = decimal_string(*found as u128);
                s.append(d.as_str());
                s
            },
            GameError::InvalidConfiguration { setting, value } => {
                let mut s = String::from_str("Invalid configuration: ");
                s.append(setting.as_str());
                s.append(" = '");
                s.append(value.as_str());
                s.append("'");
                s
            },
            GameError::MissingRequiredField { field } => {
                let mut s = String::from_str("Missing required field: ");
                s.append(field.as_str());
                s
            },
            GameError::PlayerError { player_type, error } => {
                let mut s = String::from_str("Player error (");
                s.append(player_type.as_str());
                s.append("): ");
                s.append(error.as_str());
                s
            },
            GameError::AICalculationError { description } => {
                let mut s = String::from_str("AI calculation error: ");
                s.append(description.as_str());
                s
            },
            GameError::HookExecutionFailed { hook_name, error } => {
                let mut s = String::from_str("Hook '");
                s.append(hook_name.as_str());
                s.append("' execution failed: ");
                s.append(error.as_str());
                s
            },
            GameError::InternalError { context, details } => {
                let mut s = String::from_str("Internal error in ");
                s.append(context.as_str());
                s.append(": ");
                s.append(details.as_str());
                s
            },
            GameError::NotImplemented { feature } => {
                let mut s = String::from_str("Feature not implemented: ");
                s.append(feature.as_str());
                s
            },
        };
        proof {
            assert(r@ =~= spec_message(*self));
        }
        r
    }

    pub fn invalid_position(position: usize, max: usize) -> (r: Self)
        ensures
            r == (GameError::InvalidCardPosition { position, max }),
    {
        GameError::InvalidCardPosition { position, max }
    }

    pub fn card_not_in_hand(card_name: &str, player: usize) -> (r: Self)
        ensures
            r matches GameError::CardNotInHand { card_name: n, player: p } && n@ == card_name@ && p
                == player,
    {
        GameError::CardNotInHand { card_name: String::from_str(card_name), player }
    }

    pub fn no_pokemon(player: usize, position: usize) -> (r: Self)
        ensures
            r == (GameError::NoPokemonAtPosition { player, position }),
    {
        GameError::NoPokemonAtPosition { player, position }
    }

    pub fn no_active(player: usize) -> (r: Self)
        ensures
            r == (GameError::NoActivePokemon { player }),
    {
        GameError::NoActivePokemon { player }
    }

    pub fn invalid_action(action: &str, reason: &str) -> (r: Self)
        ensures
            r matches GameError::InvalidAction { action: a, reason: s } && a@ == action@ && s@
                == reason@,
    {
        GameError::InvalidAction {
            action: String::from_str(action),
            reason: String::from_str(reason),
        }
    }

    pub fn internal(context: &str, details: &str) -> (r: Self)
        ensures
            r matches GameError::InternalError { context: c, details: d } && c@ == context@ && d@
                == details@,
    {
        GameError::InternalError {
            context: String::from_str(context),
            details: String::from_str(details),
        }
    }
}

/// The result type of the engine's fallible operations.
pub type GameResult<T> = Result<T, GameError>;

/// Turns an absent value into a `GameError` of the caller's choosing.
pub trait OptionExt<T>: Sized {
    /// The optional value the implementor stands for.
    spec fn spec_value(self) -> Option<T>;

    fn ok_or_game_error(self, err: GameError) -> (r: GameResult<T>)
        ensures
            r == match self.spec_value() {
                Some(v) => Ok::<T, GameError>(v),
                None => Err::<T, GameError>(err),
            },
    ;
}

impl<T> OptionExt<T> for Option<T> {
    open spec fn spec_value(self) -> Option<T> {
        self
    }

    /// `Ok` of the contained value, or `Err(err)` when there is none.
    fn ok_or_game_error(self, err: GameError) -> (r: GameResult<T>) {
        match self {
            Some(v) => Ok(v),
            None => Err(err),
        }
    }
}

} // verus!
