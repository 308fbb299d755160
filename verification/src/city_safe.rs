//! Value types of the city interface and the decisions made around the
//! game's city calls.

use vstd::prelude::*;

verus! {

/// Error types for city operations.
#[derive(Debug, Clone, PartialEq, Eq, Structural)]
pub enum CityError {
    /// The city pointer is null or invalid.
    InvalidCityPointer,
    /// Failed to get/set city name.
    NameOperationFailed,
    /// Failed to get/set mayor name.
    MayorNameFailed,
    /// Failed to get/set city description.
    DescriptionFailed,
    /// Failed to get/set city path.
    PathOperationFailed,
    /// Failed to initialize city.
    InitializationFailed,
    /// Position is out of bounds.
    OutOfBounds,
    /// Cell coordinates are invalid.
    InvalidCell,
    /// Language/country operation failed.
    LanguageCountryFailed,
}

/// The text shown for each error.
pub open spec fn city_error_text(e: CityError) -> Seq<char> {
    match e {
        CityError::InvalidCityPointer => "Invalid city pointer"@,
        CityError::NameOperationFailed => "Failed to get/set city name"@,
        CityError::MayorNameFailed => "Failed to get/set mayor name"@,
        CityError::DescriptionFailed => "Failed to get/set city description"@,
        CityError::PathOperationFailed => "Failed to get/set city path"@,
        CityError::InitializationFailed => "Failed to initialize city"@,
        CityError::OutOfBounds => "Position is out of bounds"@,
        CityError::InvalidCell => "Invalid cell coordinates"@,
        CityError::LanguageCountryFailed => "Language/country operation failed"@,
    }
}

impl CityError {
    /// The human-readable description of the error.
    pub fn message(&self) -> (r: String)
        ensures
            r@ == city_error_text(*self),
    {
        match self {
            CityError::InvalidCityPointer => "Invalid city pointer".to_string(),
            CityError::NameOperationFailed => "Failed to get/set city name".to_string(),
            CityError::MayorNameFailed => "Failed to get/set mayor name".to_string(),
            CityError::DescriptionFailed => "Failed to get/set city description".to_string(),
            CityError::PathOperationFailed => "Failed to get/set city path".to_string(),
            CityError::InitializationFailed => "Failed to initialize city".to_string(),
            CityError::OutOfBounds => "Position is out of bounds".to_string(),
            CityError::InvalidCell => "Invalid cell coordinates".to_string(),
            CityError::LanguageCountryFailed => "Language/country operation failed".to_string(),
        }
    }
}

/// Cell coordinates in the city grid.
#[derive(Debug, Clone, Copy, PartialEq, Eq, Structural)]
pub struct CellCoord {
    pub x: i32,
    pub z: i32,
}


/// Difficulty levels for the city.
///
/// The game stores the level as an `i32`: 0 is easy, 1 medium and 2 hard.
#[derive(Debug, Clone, Copy, PartialEq, Eq, Structural)]
pub enum DifficultyLevel {
    Easy,
    Medium,
    Hard,
}

/// The level the game's code `value` stands for; unknown codes read as medium.
pub open spec fn difficulty_from_code(value: i32) -> DifficultyLevel {
    if value == 0 {
        DifficultyLevel::Easy
    } else if value == 2 {
        DifficultyLevel::Hard
    } else {
        DifficultyLevel::Medium
    }
}

/// The code the game uses for `level`.
pub open spec fn difficulty_code(level: DifficultyLevel) -> i32 {
    match level {
        DifficultyLevel::Easy => 0,
        DifficultyLevel::Medium => 1,
        DifficultyLevel::Hard => 2,
    }
}

impl DifficultyLevel {
    /// The code the game uses for this level (0, 1 or 2).
    pub fn code(&self) -> (r: i32)
        ensures
            r == difficulty_code(*self),
    {
        match self {
            DifficultyLevel::Easy => 0,
            DifficultyLevel::Medium => 1,
            DifficultyLevel::Hard => 2,
        }
    }
}

impl From<i32> for DifficultyLevel {
    fn from(value: i32) -> (r: Self) {
        match value {
            0 => DifficultyLevel::Easy,
            1 => DifficultyLevel::Medium,
            2 => DifficultyLevel::Hard,
            _ => DifficultyLevel::Medium,
        }
    }
}

impl vstd::std_specs::convert::FromSpecImpl<i32> for DifficultyLevel {
    open spec fn obeys_from_spec() -> bool {
        true
    }

    open spec fn from_spec(v: i32) -> DifficultyLevel {
        difficulty_from_code(v)
    }
}

/// A code the game does not know reads as medium.
pub proof fn lemma_unknown_code_reads_medium(value: i32)
    requires
        value != 0 && value != 1 && value != 2,
    ensures
        difficulty_from_code(value) == DifficultyLevel::Medium,
{
}

/// Converting a level to its code and back gives the level again.
pub proof fn lemma_difficulty_code_roundtrip(level: DifficultyLevel)
    ensures
        difficulty_from_code(difficulty_code(level)) == level,
{
}

/// The outcome of a game call that reports success as a flag: `Ok(())` when
/// it succeeded, `Err(error)` when not.
///
/// Init, Shutdown and SetEstablished fail with `InitializationFailed`;
/// SetSize fails with `OutOfBounds`.
pub fn flag_result(succeeded: bool, error: CityError) -> (r: Result<(), CityError>)
    ensures
        r == (if succeeded { Ok::<(), CityError>(()) } else { Err(error) }),
{
    if succeeded {
        Ok(())
    } else {
        Err(error)
    }
}

/// The outcome of the game's Init call: fails with `InitializationFailed`.
pub fn init_result(succeeded: bool) -> (r: Result<(), CityError>)
    ensures
        r == (if succeeded { Ok::<(), CityError>(()) } else { Err(CityError::InitializationFailed) }),
{
    flag_result(succeeded, CityError::InitializationFailed)
}

/// The outcome of the game's Shutdown call: fails with `InitializationFailed`.
pub fn shutdown_result(succeeded: bool) -> (r: Result<(), CityError>)
    ensures
        r == (if succeeded { Ok::<(), CityError>(()) } else { Err(CityError::InitializationFailed) }),
{
    flag_result(succeeded, CityError::InitializationFailed)
}

/// The outcome of the game's SetEstablished call: fails with
/// `InitializationFailed`.
pub fn set_established_result(succeeded: bool) -> (r: Result<(), CityError>)
    ensures
        r == (if succeeded { Ok::<(), CityError>(()) } else { Err(CityError::InitializationFailed) }),
{
    flag_result(succeeded, CityError::InitializationFailed)
}

/// The outcome of the game's SetSize call: fails with `OutOfBounds`.
pub fn set_size_result(succeeded: bool) -> (r: Result<(), CityError>)
    ensures
        r == (if succeeded { Ok::<(), CityError>(()) } else { Err(CityError::OutOfBounds) }),
{
    flag_result(succeeded, CityError::OutOfBounds)
}

/// The outcome of a coordinate conversion: the game returns status 0 on
/// success, and then `value` is what it wrote; any other status is an
/// invalid cell.
pub fn conversion_result<V>(status: i32, value: V) -> (r: Result<V, CityError>)
    ensures
        r == (if status == 0 { Ok::<V, CityError>(value) } else { Err(CityError::InvalidCell) }),
{
    if status == 0 {
        Ok(value)
    } else {
        Err(CityError::InvalidCell)
    }
}

/// The difficulty level for the code the game reports; this never fails.
pub fn difficulty_result(level: i32) -> (r: Result<DifficultyLevel, CityError>)
    ensures
        r == Ok::<DifficultyLevel, CityError>(difficulty_from_code(level)),
{
    Ok(DifficultyLevel::from(level))
}

/// The grid size from the game's unsigned cell counts, each reinterpreted
/// as an `i32` the way a Rust `as` cast does.
pub fn cell_count_from_game(count_x: u32, count_z: u32) -> (r: CellCoord)
    ensures
        r.x == count_x as i32,
        r.z == count_z as i32,
{
    CellCoord { x: count_x as i32, z: count_z as i32 }
}

/// Handle on the game's cISC4City object.
///
/// The handle holds the object's address, which is never 0; calls through the
/// object's vtable are made by the code that owns the game's memory.
pub struct City {
    ptr: usize,
}

impl City {
    #[verifier::type_invariant]
    spec fn not_null(self) -> bool {
        self.ptr != 0
    }

    /// The address of the city object.
    pub closed spec fn address(self) -> usize {
        self.ptr
    }

    /// Wrap the city object at address `ptr`; a null address gives `None`.
    pub fn from_raw(ptr: usize) -> (r: Option<City>)
        ensures
            r is None <==> ptr == 0,
            r matches Some(c) ==> c.address() == ptr,
    {
        if ptr == 0 {
            None
        } else {
            Some(City { ptr })
        }
    }

    /// The address of the city object, never 0.
    pub fn as_ptr(&self) -> (r: usize)
        ensures
            r == self.address(),
            r != 0,
    {
        proof {
            use_type_invariant(self);
        }
        self.ptr
    }

    /// The city name; this version always answers with a placeholder.
    pub fn get_name(&self) -> (r: Result<String, CityError>)
        ensures
            r matches Ok(s) && s@ == "City Name (placeholder)"@,
    {
        Ok("City Name (placeholder)".to_string())
    }

    /// Set the city name; this version accepts any name and changes nothing.
    pub fn set_name(&self, name: &str) -> (r: Result<(), CityError>)
        ensures
            r is Ok,
    {
        Ok(())
    }

    /// The mayor name; this version always answers with a placeholder.
    pub fn get_mayor_name(&self) -> (r: Result<String, CityError>)
        ensures
            r matches Ok(s) && s@ == "Mayor Name (placeholder)"@,
    {
        Ok("Mayor Name (placeholder)".to_string())
    }

    /// Set the mayor name; this version accepts any name and changes nothing.
    pub fn set_mayor_name(&self, name: &str) -> (r: Result<(), CityError>)
        ensures
            r is Ok,
    {
        Ok(())
    }

    /// The city description; this version always answers with a placeholder.
    pub fn get_description(&self) -> (r: Result<String, CityError>)
        ensures
            r matches Ok(s) && s@ == "City Description (placeholder)"@,
    {
        Ok("City Description (placeholder)".to_string())
    }

    /// Set the city description; this version accepts any text and changes
    /// nothing.
    pub fn set_description(&self, desc: &str) -> (r: Result<(), CityError>)
        ensures
            r is Ok,
    {
        Ok(())
    }
}

} // verus!
