use vstd::prelude::*;

verus! {

/// Display mode of the application window; it advances through a fixed cycle of three.
#[derive(Debug, Clone, Copy, PartialEq, Eq, Structural)]
pub enum BackgroundColor {
    White,
    LightBlue,
    LightGreen,
}

/// The color that follows `c` in the cycle.
pub open spec fn succ(c: BackgroundColor) -> BackgroundColor {
    match c {
        BackgroundColor::White => BackgroundColor::LightBlue,
        BackgroundColor::LightBlue => BackgroundColor::LightGreen,
        BackgroundColor::LightGreen => BackgroundColor::White,
    }
}

/// The place of `c` in the cycle, counting from White.
pub open spec fn position(c: BackgroundColor) -> nat {
    match c {
        BackgroundColor::White => 0,
        BackgroundColor::LightBlue => 1,
        BackgroundColor::LightGreen => 2,
    }
}

/// The color found `i` steps after White.
pub open spec fn color_at(i: nat) -> BackgroundColor {
    if i % 3 == 0 {
        BackgroundColor::White
    } else if i % 3 == 1 {
        BackgroundColor::LightBlue
    } else {
        BackgroundColor::LightGreen
    }
}

/// The color reached from `c` after `n` steps.
pub open spec fn advance(c: BackgroundColor, n: nat) -> BackgroundColor
    decreases n,
{
    if n == 0 {
        c
    } else {
        succ(advance(c, (n - 1) as nat))
    }
}

/// The human-readable name of a color.
pub open spec fn color_name(c: BackgroundColor) -> Seq<char> {
    match c {
        BackgroundColor::White => "White"@,
        BackgroundColor::LightBlue => "Light Blue"@,
        BackgroundColor::LightGreen => "Light Green"@,
    }
}

impl BackgroundColor {
    /// The next color of the cycle.
    pub fn next(&self) -> (r: Self)
        ensures
            r == succ(*self),
    {
        match self {
            BackgroundColor::White => BackgroundColor::LightBlue,
            BackgroundColor::LightBlue => BackgroundColor::LightGreen,
            BackgroundColor::LightGreen => BackgroundColor::White,
        }
    }

    /// The color's name, as shown to the user.
    pub fn name(&self) -> (r: &'static str)
        ensures
            r@ == color_name(*self),
    {
        match self {
            BackgroundColor::White => "White",
            BackgroundColor::LightBlue => "Light Blue",
            BackgroundColor::LightGreen => "Light Green",
        }
    }
}

/// Commands that the application acts on.
#[derive(Debug, Clone, Copy, PartialEq, Eq, Structural)]
pub enum AppAction {
    CycleColor,
}

/// The application's state: the current display mode.
pub struct AppState {
    current_bg_color: BackgroundColor,
}

impl View for AppState {
    type V = BackgroundColor;

    closed spec fn view(&self) -> BackgroundColor {
        self.current_bg_color
    }
}

impl AppState {
    /// A fresh state, showing White.
    pub fn new() -> (r: Self)
        ensures
            r@ == BackgroundColor::White,
    {
        AppState { current_bg_color: BackgroundColor::White }
    }

    /// Advances the display mode by one step and returns the new mode.
    pub fn cycle_bg_color(&mut self) -> (r: BackgroundColor)
        ensures
            r == succ(old(self)@),
            final(self)@ == r,
    {
        self.current_bg_color = self.current_bg_color.next();
        self.current_bg_color
    }

    /// The current display mode.
    pub fn get_bg_color(&self) -> (r: BackgroundColor)
        ensures
            r == self@,
    {
        self.current_bg_color
    }
}

/// One step from the color `i` steps after White is the color `i + 1` steps after it.
pub proof fn lemma_succ_color_at(i: nat)
    ensures
        succ(color_at(i)) == color_at(i + 1),
{
}

/// The color at a position is the color at that position modulo three.
pub proof fn lemma_position_color_at(c: BackgroundColor)
    ensures
        color_at(position(c)) == c,
{
}

/// `n` steps from `c` reach the color `position(c) + n` steps after White.
pub proof fn lemma_advance_color_at(c: BackgroundColor, n: nat)
    ensures
        advance(c, n) == color_at(position(c) + n),
    decreases n,
{
    if n == 0 {
        lemma_position_color_at(c);
    } else {
        lemma_advance_color_at(c, (n - 1) as nat);
        lemma_succ_color_at((position(c) + n - 1) as nat);
    }
}

/// Cycling a number of times that is a multiple of three brings the display
/// mode back to where it started.
pub proof fn lemma_cycle_multiple_of_three(c: BackgroundColor, n: nat)
    requires
        n % 3 == 0,
    ensures
        advance(c, n) == c,
{
    lemma_advance_color_at(c, n);
    lemma_position_color_at(c);
    assert((position(c) + n) % 3 == position(c) % 3);
}

/// However the cycle commands of `n` connections are interleaved, each one
/// steps the shared state once, so a fresh state ends at the color `n mod 3`
/// steps after White.
pub proof fn lemma_cycles_in_any_order(n: nat)
    ensures
        advance(BackgroundColor::White, n) == color_at(n % 3),
{
    lemma_advance_color_at(BackgroundColor::White, n);
    assert((n % 3) % 3 == n % 3);
}

} // verus!
