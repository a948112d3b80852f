use vstd::prelude::*;

verus! {

/// The game modes known to the game (`GorillaGameModes.GameModeType`), plus
/// `NoMode` for the lobby or an unknown code.
#[derive(Clone, Copy, Debug, PartialEq, Eq, Structural)]
pub enum GameModeType {
    Casual,
    Infection,
    HuntDown,
    Paintbrawl,
    Ambush,
    FreezeTag,
    GhostMode,
    Custom,
    Guardian,
    PropHunt,
    InfectionCompetitive,
    SuperInfect,
    SuperCasual,
    NoMode,
}

/// The integer code of each mode, as the game numbers them.
pub open spec fn mode_code(m: GameModeType) -> int {
    match m {
        GameModeType::Casual => 0,
        GameModeType::Infection => 1,
        GameModeType::HuntDown => 2,
        GameModeType::Paintbrawl => 3,
        GameModeType::Ambush => 4,
        GameModeType::FreezeTag => 5,
        GameModeType::GhostMode => 6,
        GameModeType::Custom => 7,
        GameModeType::Guardian => 8,
        GameModeType::PropHunt => 9,
        GameModeType::InfectionCompetitive => 10,
        GameModeType::SuperInfect => 11,
        GameModeType::SuperCasual => 12,
        GameModeType::NoMode => -1,
    }
}

/// The mode that a raw code names: the mode whose code it is, or `NoMode` for
/// any code outside 0..=12.
pub open spec fn mode_of_code(v: int) -> GameModeType {
    if v == 0 { GameModeType::Casual }
    else if v == 1 { GameModeType::Infection }
    else if v == 2 { GameModeType::HuntDown }
    else if v == 3 { GameModeType::Paintbrawl }
    else if v == 4 { GameModeType::Ambush }
    else if v == 5 { GameModeType::FreezeTag }
    else if v == 6 { GameModeType::GhostMode }
    else if v == 7 { GameModeType::Custom }
    else if v == 8 { GameModeType::Guardian }
    else if v == 9 { GameModeType::PropHunt }
    else if v == 10 { GameModeType::InfectionCompetitive }
    else if v == 11 { GameModeType::SuperInfect }
    else if v == 12 { GameModeType::SuperCasual }
    else { GameModeType::NoMode }
}

impl GameModeType {
    /// Decodes a raw mode code; unknown codes give `NoMode`.
    pub fn from_raw(v: i32) -> (m: GameModeType)
        ensures
            m == mode_of_code(v as int),
    {
        match v {
            0 => GameModeType::Casual,
            1 => GameModeType::Infection,
            2 => GameModeType::HuntDown,
            3 => GameModeType::Paintbrawl,
            4 => GameModeType::Ambush,
            5 => GameModeType::FreezeTag,
            6 => GameModeType::GhostMode,
            7 => GameModeType::Custom,
            8 => GameModeType::Guardian,
            9 => GameModeType::PropHunt,
            10 => GameModeType::InfectionCompetitive,
            11 => GameModeType::SuperInfect,
            12 => GameModeType::SuperCasual,
            _ => GameModeType::NoMode,
        }
    }

    /// The raw code of this mode, as passed to and returned by the game.
    pub fn to_raw(self) -> (v: i32)
        ensures
            v as int == mode_code(self),
    {
        match self {
            GameModeType::Casual => 0,
            GameModeType::Infection => 1,
            GameModeType::HuntDown => 2,
            GameModeType::Paintbrawl => 3,
            GameModeType::Ambush => 4,
            GameModeType::FreezeTag => 5,
            GameModeType::GhostMode => 6,
            GameModeType::Custom => 7,
            GameModeType::Guardian => 8,
            GameModeType::PropHunt => 9,
            GameModeType::InfectionCompetitive => 10,
            GameModeType::SuperInfect => 11,
            GameModeType::SuperCasual => 12,
            GameModeType::NoMode => -1,
        }
    }
}

/// Decoding the code of any mode gives that mode back.
pub proof fn lemma_from_raw_of_to_raw(m: GameModeType)
    ensures
        mode_of_code(mode_code(m)) == m,
{
}

/// Encoding the decoded mode gives the code back exactly for -1..=12; every
/// other code decodes to `NoMode`, whose code is -1.
pub proof fn lemma_to_raw_of_from_raw(v: int)
    ensures
        -1 <= v <= 12 ==> mode_code(mode_of_code(v)) == v,
        !(-1 <= v <= 12) ==> mode_of_code(v) == GameModeType::NoMode,
{
}

/// Each code of `GorillaGameModes.GameModeType` decodes to its mode, and
/// each mode encodes to its code: Casual 0, Infection 1, HuntDown 2,
/// Paintbrawl 3, Ambush 4, FreezeTag 5, Ghost 6, Custom 7, Guardian 8,
/// PropHunt 9, InfectionCompetitive 10, SuperInfect 11, SuperCasual 12, and
/// the lobby (no mode) -1; every other code decodes to no mode.
pub proof fn lemma_mode_code_table()
    ensures
        mode_of_code(0) == GameModeType::Casual && mode_code(GameModeType::Casual) == 0,
        mode_of_code(1) == GameModeType::Infection && mode_code(GameModeType::Infection) == 1,
        mode_of_code(2) == GameModeType::HuntDown && mode_code(GameModeType::HuntDown) == 2,
        mode_of_code(3) == GameModeType::Paintbrawl && mode_code(GameModeType::Paintbrawl) == 3,
        mode_of_code(4) == GameModeType::Ambush && mode_code(GameModeType::Ambush) == 4,
        mode_of_code(5) == GameModeType::FreezeTag && mode_code(GameModeType::FreezeTag) == 5,
        mode_of_code(6) == GameModeType::GhostMode && mode_code(GameModeType::GhostMode) == 6,
        mode_of_code(7) == GameModeType::Custom && mode_code(GameModeType::Custom) == 7,
        mode_of_code(8) == GameModeType::Guardian && mode_code(GameModeType::Guardian) == 8,
        mode_of_code(9) == GameModeType::PropHunt && mode_code(GameModeType::PropHunt) == 9,
        mode_of_code(10) == GameModeType::InfectionCompetitive
            && mode_code(GameModeType::InfectionCompetitive) == 10,
        mode_of_code(11) == GameModeType::SuperInfect && mode_code(GameModeType::SuperInfect) == 11,
        mode_of_code(12) == GameModeType::SuperCasual && mode_code(GameModeType::SuperCasual) == 12,
        mode_of_code(-1) == GameModeType::NoMode && mode_code(GameModeType::NoMode) == -1,
        forall|v: int| !(-1 <= v <= 12) ==> mode_of_code(v) == GameModeType::NoMode,
{
}

/// The C codes of the results: Success 0, AlreadyInitialised 1,
/// MonoNotFound 2, ClassNotFound 3, NullInstance 4, InvalidArg 5.
pub proof fn lemma_result_code_table()
    ensures
        result_code(GorillaResult::Success) == 0,
        result_code(GorillaResult::AlreadyInitialised) == 1,
        result_code(GorillaResult::MonoNotFound) == 2,
        result_code(GorillaResult::ClassNotFound) == 3,
        result_code(GorillaResult::NullInstance) == 4,
        result_code(GorillaResult::InvalidArg) == 5,
{
}

/// The result codes of the gorilla API's initialisation and calls.
#[derive(Clone, Copy, Debug, PartialEq, Eq, Structural)]
pub enum GorillaResult {
    Success,
    AlreadyInitialised,
    MonoNotFound,
    ClassNotFound,
    NullInstance,
    InvalidArg,
}

pub open spec fn result_code(r: GorillaResult) -> int {
    match r {
        GorillaResult::Success => 0,
        GorillaResult::AlreadyInitialised => 1,
        GorillaResult::MonoNotFound => 2,
        GorillaResult::ClassNotFound => 3,
        GorillaResult::NullInstance => 4,
        GorillaResult::InvalidArg => 5,
    }
}

impl GorillaResult {
    /// The C ABI code of this result.
    pub fn code(self) -> (c: i32)
        ensures
            c as int == result_code(self),
    {
        match self {
            GorillaResult::Success => 0,
            GorillaResult::AlreadyInitialised => 1,
            GorillaResult::MonoNotFound => 2,
            GorillaResult::ClassNotFound => 3,
            GorillaResult::NullInstance => 4,
            GorillaResult::InvalidArg => 5,
        }
    }

    /// Whether the API is usable after an initialisation that gave this
    /// result: it is when it succeeded now or had already succeeded.
    pub fn api_usable(self) -> (b: bool)
        ensures
            b <==> (self == GorillaResult::Success || self == GorillaResult::AlreadyInitialised),
    {
        match self {
            GorillaResult::Success | GorillaResult::AlreadyInitialised => true,
            _ => false,
        }
    }
}

} // verus!
