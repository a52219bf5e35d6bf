use vstd::prelude::*;
use vstd::string::StringSliceAdditionalSpecFns;

use crate::color::Color;
use crate::framebuffer::Framebuffer;

verus! {

/// The screens of the game.
#[derive(PartialEq, Eq, Structural, Clone, Copy, Debug)]
pub enum GameState {
    MainMenu,
    MapSelect,
    InGame,
    Victory,
}

/// The screen that follows a frame of play: the victory screen once both
/// bomb sites are defused, otherwise the main menu when the player asked to
/// leave, otherwise the game goes on.
pub fn in_game_next_state(quit_pressed: bool, defused_a: bool, defused_b: bool) -> (next: GameState)
    ensures
        next == if defused_a && defused_b {
            GameState::Victory
        } else if quit_pressed {
            GameState::MainMenu
        } else {
            GameState::InGame
        },
{
    let mut next = GameState::InGame;
    if quit_pressed {
        next = GameState::MainMenu;
    }
    if defused_a && defused_b {
        next = GameState::Victory;
    }
    next
}

/// Which bomb sites are defused in the current round ('1' is site A, '2' is
/// site B), and how many defusals have been completed in all.
#[derive(PartialEq, Eq, Structural, Clone, Copy, Debug)]
pub struct DefuseProgress {
    pub defused_a: bool,
    pub defused_b: bool,
    pub defused_count: u8,
}

impl DefuseProgress {
    /// Whether the site marked `symbol` is defused; other symbols are no site.
    pub open spec fn defused(&self, symbol: char) -> bool {
        (symbol == '1' && self.defused_a) || (symbol == '2' && self.defused_b)
    }

    /// Whether the site marked `symbol` still waits to be defused.
    pub open spec fn pending(&self, symbol: char) -> bool {
        (symbol == '1' && !self.defused_a) || (symbol == '2' && !self.defused_b)
    }

    /// The progress after a finished defusal on the cell marked `symbol`.
    pub open spec fn completed(self, symbol: char) -> DefuseProgress {
        DefuseProgress {
            defused_a: self.defused_a || symbol == '1',
            defused_b: self.defused_b || symbol == '2',
            defused_count: (self.defused_count + 1) as u8,
        }
    }

    /// Nothing defused yet.
    pub fn new() -> (p: DefuseProgress)
        ensures
            p == (DefuseProgress { defused_a: false, defused_b: false, defused_count: 0 }),
    {
        DefuseProgress { defused_a: false, defused_b: false, defused_count: 0 }
    }

    /// A new round: both sites armed again; the count of defusals is kept.
    pub fn start_round(&mut self)
        ensures
            *final(self) == (DefuseProgress {
                defused_a: false,
                defused_b: false,
                defused_count: old(self).defused_count,
            }),
    {
        self.defused_a = false;
        self.defused_b = false;
    }

    /// Whether the site marked `symbol` has been defused this round.
    pub fn site_defused(&self, symbol: char) -> (r: bool)
        ensures
            r == self.defused(symbol),
    {
        (symbol == '1' && self.defused_a) || (symbol == '2' && self.defused_b)
    }

    /// Whether the site marked `symbol` still waits to be defused.
    pub fn site_pending(&self, symbol: char) -> (r: bool)
        ensures
            r == self.pending(symbol),
    {
        (symbol == '1' && !self.defused_a) || (symbol == '2' && !self.defused_b)
    }

    /// Records a finished defusal on the cell marked `symbol`: site A for
    /// '1', site B for '2'; the count of defusals goes up by one.
    pub fn complete(&mut self, symbol: char)
        requires
            old(self).defused_count < 255,
        ensures
            *final(self) == old(self).completed(symbol),
            final(self).defused_count == old(self).defused_count + 1,
    {
        if symbol == '1' {
            self.defused_a = true;
        } else if symbol == '2' {
            self.defused_b = true;
        }
        self.defused_count = self.defused_count + 1;
    }

    /// Whether both sites are defused, which wins the round.
    pub fn all_defused(&self) -> (r: bool)
        ensures
            r == (self.defused_a && self.defused_b),
    {
        self.defused_a && self.defused_b
    }
}

/// Defusing both bomb sites, in either order, wins the round: the next screen
/// is the victory screen.
pub proof fn defusing_both_sites_wins(progress: DefuseProgress, first: char, second: char)
    requires
        (first == '1' && second == '2') || (first == '2' && second == '1'),
    ensures
        progress.completed(first).completed(second).defused_a,
        progress.completed(first).completed(second).defused_b,
{
}

/// A bomb site waits to be defused exactly when it is not defused, site A
/// ('1') by its own flag and site B ('2') by its own; no other symbol is a
/// site that waits.
pub proof fn site_pending_exactly_when_not_defused(progress: DefuseProgress, symbol: char)
    ensures
        symbol == '1' ==> (progress.pending(symbol) <==> !progress.defused_a),
        symbol == '2' ==> (progress.pending(symbol) <==> !progress.defused_b),
        symbol == '1' ==> (progress.defused(symbol) <==> progress.defused_a),
        symbol == '2' ==> (progress.defused(symbol) <==> progress.defused_b),
        symbol != '1' && symbol != '2' ==> !progress.pending(symbol) && !progress.defused(symbol),
{
}

/// Once a site is defused it no longer waits, and the other site is left as
/// it was.
pub proof fn defused_site_stops_waiting(progress: DefuseProgress, site: char)
    requires
        site == '1' || site == '2',
    ensures
        !progress.completed(site).pending(site),
        progress.completed(site).defused(site),
        site == '1' ==> progress.completed(site).defused_b == progress.defused_b,
        site == '2' ==> progress.completed(site).defused_a == progress.defused_a,
{
}

/// Defusing one site alone does not win a round that started with neither
/// defused.
pub proof fn one_site_is_not_enough(progress: DefuseProgress, site: char)
    requires
        !progress.defused_a,
        !progress.defused_b,
    ensures
        !(progress.completed(site).defused_a && progress.completed(site).defused_b),
{
}

/// What a click on a menu button asks for.
#[derive(PartialEq, Eq, Clone, Copy, Debug)]
pub enum MenuOutcome {
    /// Nothing happens.
    Stay,
    /// The game moves to another screen.
    Switch(GameState),
    /// The game ends.
    Quit,
    /// The map of this name is chosen.
    PickMap(&'static str),
    /// A map is chosen at random.
    PickRandomMap,
}

/// What the button labelled `label` does on the screen `state`: on the main
/// menu "play" starts the game, "map select" opens the map screen and "exit"
/// quits; on the map screen "random", "cache", "dust 2", "inferno" and
/// "mirage" choose a map and "back" returns to the main menu; on the victory
/// screen "return" goes back to the main menu. Any other label does nothing.
pub open spec fn menu_outcome_of(state: GameState, label: Seq<char>) -> MenuOutcome {
    match state {
        GameState::MainMenu => if label == "play"@ {
            MenuOutcome::Switch(GameState::InGame)
        } else if label == "map select"@ {
            MenuOutcome::Switch(GameState::MapSelect)
        } else if label == "exit"@ {
            MenuOutcome::Quit
        } else {
            MenuOutcome::Stay
        },
        GameState::MapSelect => if label == "random"@ {
            MenuOutcome::PickRandomMap
        } else if label == "mirage"@ {
            MenuOutcome::PickMap("Mirage")
        } else if label == "inferno"@ {
            MenuOutcome::PickMap("Inferno")
        } else if label == "dust 2"@ {
            MenuOutcome::PickMap("Dust 2")
        } else if label == "cache"@ {
            MenuOutcome::PickMap("Cache")
        } else if label == "back"@ {
            MenuOutcome::Switch(GameState::MainMenu)
        } else {
            MenuOutcome::Stay
        },
        GameState::Victory => if label == "return"@ {
            MenuOutcome::Switch(GameState::MainMenu)
        } else {
            MenuOutcome::Stay
        },
        GameState::InGame => MenuOutcome::Stay,
    }
}

/// Whether two texts hold the same characters.
pub fn same_text(a: &str, b: &str) -> (same: bool)
    ensures
        same == (a@ == b@),
{
    broadcast use vstd::utf8::encode_utf8_decode_utf8;

    let a_bytes = a.as_bytes();
    let b_bytes = b.as_bytes();
    if a_bytes.len() != b_bytes.len() {
        proof {
            if a@ == b@ {
                assert(a.spec_bytes() == b.spec_bytes());
            }
        }
        return false;
    }
    let mut i: usize = 0;
    while i < a_bytes.len()
        invariant
            i <= a_bytes@.len(),
            a_bytes@.len() == b_bytes@.len(),
            a_bytes@ == a.spec_bytes(),
            b_bytes@ == b.spec_bytes(),
            forall|j: int| 0 <= j < i ==> a_bytes@[j] == b_bytes@[j],
        decreases a_bytes@.len() - i,
    {
        if a_bytes[i] != b_bytes[i] {
            proof {
                if a@ == b@ {
                    assert(a.spec_bytes() == b.spec_bytes());
                    assert(a_bytes@[i as int] == b_bytes@[i as int]);
                }
            }
            return false;
        }
        i += 1;
    }
    assert(a_bytes@ == b_bytes@);
    assert(vstd::utf8::decode_utf8(a.spec_bytes()) == a@);
    assert(vstd::utf8::decode_utf8(b.spec_bytes()) == b@);
    true
}

/// What the button labelled `label` does on the screen `state`.
pub fn menu_outcome(state: GameState, label: &str) -> (outcome: MenuOutcome)
    ensures
        outcome == menu_outcome_of(state, label@),
{
    match state {
        GameState::MainMenu => {
            if same_text(label, "play") {
                MenuOutcome::Switch(GameState::InGame)
            } else if same_text(label, "map select") {
                MenuOutcome::Switch(GameState::MapSelect)
            } else if same_text(label, "exit") {
                MenuOutcome::Quit
            } else {
                MenuOutcome::Stay
            }
        },
        GameState::MapSelect => {
            if same_text(label, "random") {
                MenuOutcome::PickRandomMap
            } else if same_text(label, "mirage") {
                MenuOutcome::PickMap("Mirage")
            } else if same_text(label, "inferno") {
                MenuOutcome::PickMap("Inferno")
            } else if same_text(label, "dust 2") {
                MenuOutcome::PickMap("Dust 2")
            } else if same_text(label, "cache") {
                MenuOutcome::PickMap("Cache")
            } else if same_text(label, "back") {
                MenuOutcome::Switch(GameState::MainMenu)
            } else {
                MenuOutcome::Stay
            }
        },
        GameState::Victory => {
            if same_text(label, "return") {
                MenuOutcome::Switch(GameState::MainMenu)
            } else {
                MenuOutcome::Stay
            }
        },
        GameState::InGame => MenuOutcome::Stay,
    }
}

/// The radar's color for a map symbol: bomb sites yellow, boxes brown,
/// floor and spawns gray, the outside of the map ('-') black, and walls pale.
pub open spec fn radar_color_of(cell: char) -> Color {
    if cell == '1' || cell == '2' {
        Color { r: 225, g: 255, b: 0, a: 255 }
    } else if cell == 'B' {
        Color { r: 77, g: 33, b: 12, a: 255 }
    } else if cell == ' ' || cell == 'P' || cell == 'T' {
        Color { r: 128, g: 128, b: 128, a: 255 }
    } else if cell == '-' {
        Color { r: 0, g: 0, b: 0, a: 255 }
    } else {
        Color { r: 251, g: 255, b: 219, a: 255 }
    }
}

/// The radar's color for a map symbol.
pub fn radar_color(cell: char) -> (color: Color)
    ensures
        color == radar_color_of(cell),
{
    match cell {
        '1' | '2' => Color { r: 225, g: 255, b: 0, a: 255 },
        'B' => Color { r: 77, g: 33, b: 12, a: 255 },
        ' ' | 'P' | 'T' => Color { r: 128, g: 128, b: 128, a: 255 },
        '-' => Color { r: 0, g: 0, b: 0, a: 255 },
        _ => Color { r: 251, g: 255, b: 219, a: 255 },
    }
}

/// The radar shows bomb sites yellow, the walkable floor and spawns gray,
/// boxes brown, the outside of the map ('-') black, and every other solid
/// symbol, box-drawing walls such as '│' included, in the pale wall color.
/// Only the outside of the map is black.
pub proof fn radar_matches_the_map(cell: char)
    ensures
        crate::maze::bomb_site(cell) ==> radar_color_of(cell) == (Color { r: 225, g: 255, b: 0, a: 255 }),
        crate::maze::walkable(cell) && !crate::maze::bomb_site(cell) ==> radar_color_of(cell) == (Color {
            r: 128,
            g: 128,
            b: 128,
            a: 255,
        }),
        cell == 'B' ==> radar_color_of(cell) == (Color { r: 77, g: 33, b: 12, a: 255 }),
        !crate::maze::walkable(cell) && cell != 'B' && cell != '-' ==> radar_color_of(cell) == (Color {
            r: 251,
            g: 255,
            b: 219,
            a: 255,
        }),
        crate::maze::box_drawing(cell) ==> radar_color_of(cell) == (Color {
            r: 251,
            g: 255,
            b: 219,
            a: 255,
        }),
        radar_color_of(cell) == (Color { r: 0, g: 0, b: 0, a: 255 }) <==> cell == '-',
{
}

/// Only the main menu's "exit" button quits, and buttons do nothing while
/// the game is being played.
pub proof fn only_exit_quits(state: GameState, label: Seq<char>)
    ensures
        menu_outcome_of(state, label) == MenuOutcome::Quit ==> state == GameState::MainMenu && label
            == "exit"@,
        state == GameState::InGame ==> menu_outcome_of(state, label) == MenuOutcome::Stay,
{
}

/// A pixel of the radar and its color.
#[derive(PartialEq, Eq, Structural, Clone, Copy, Debug)]
pub struct PixelColor {
    pub x: u32,
    pub y: u32,
    pub color: Color,
}

/// Whether the circle drawing covers (`x`, `y`): the circle spans the columns
/// from `center_x - radius` to `center_x + radius`, and the column at offset
/// `dx` from the centre reaches `half_heights[dx + radius]` rows above and
/// below `center_y`. A negative radius covers nothing.
pub open spec fn in_circle(
    center_x: int,
    center_y: int,
    radius: int,
    half_heights: Seq<i32>,
    x: int,
    y: int,
) -> bool {
    &&& 0 <= radius
    &&& -radius <= x - center_x <= radius
    &&& center_y - half_heights[x - center_x + radius] <= y
    &&& y <= center_y + half_heights[x - center_x + radius]
}

/// Whether the circle covers a point with no negative coordinate.
pub open spec fn circle_reaches_screen(
    center_x: int,
    center_y: int,
    radius: int,
    half_heights: Seq<i32>,
) -> bool {
    exists|x: int, y: int|
        0 <= x && 0 <= y && #[trigger] in_circle(center_x, center_y, radius, half_heights, x, y)
}

/// The circle covers only the columns within `radius` of the centre, and
/// each column is symmetric about the centre row.
pub proof fn circle_is_symmetric_about_its_centre_row(
    center_x: int,
    center_y: int,
    radius: int,
    half_heights: Seq<i32>,
    x: int,
    d: int,
)
    ensures
        in_circle(center_x, center_y, radius, half_heights, x, center_y + d) <==> in_circle(
            center_x,
            center_y,
            radius,
            half_heights,
            x,
            center_y - d,
        ),
        in_circle(center_x, center_y, radius, half_heights, x, center_y + d) ==> center_x - radius
            <= x <= center_x + radius,
{
}

/// Paints a filled circle around (`center_x`, `center_y`) column by column:
/// the column at offset `dx` from the centre, for `dx` from `-radius` to
/// `radius`, is painted from `half_heights[dx + radius]` rows above the centre
/// to as many rows below it. Pixels outside the framebuffer are skipped, and
/// `color` becomes the current color when the circle covers a point with no
/// negative coordinate.
pub fn draw_filled_circle(
    fb: &mut Framebuffer,
    center_x: i32,
    center_y: i32,
    radius: i32,
    half_heights: &Vec<i32>,
    color: Color,
)
    requires
        old(fb).wf(),
        i32::MIN < radius,
        radius >= 0 ==> half_heights@.len() == 2 * radius + 1,
        radius >= 0 ==> i32::MIN <= center_x - radius && center_x + radius <= i32::MAX,
        forall|k: int|
            #![trigger half_heights@[k]]
            0 <= k < half_heights@.len() && radius >= 0 ==> i32::MIN <= center_y - half_heights@[k]
                && center_y + half_heights@[k] <= i32::MAX,
    ensures
        final(fb).wf(),
        final(fb).width == old(fb).width,
        final(fb).height == old(fb).height,
        final(fb).background_color == old(fb).background_color,
        final(fb).current_color == if circle_reaches_screen(
            center_x as int,
            center_y as int,
            radius as int,
            half_heights@,
        ) {
            color
        } else {
            old(fb).current_color
        },
        forall|x: int, y: int| #[trigger]
            final(fb).in_bounds(x, y) ==> final(fb).pixel(x, y) == if in_circle(
                center_x as int,
                center_y as int,
                radius as int,
                half_heights@,
                x,
                y,
            ) {
                color
            } else {
                old(fb).pixel(x, y)
            },
{
    let ghost cx = center_x as int;
    let ghost cy = center_y as int;
    let ghost r = radius as int;
    let ghost hh = half_heights@;
    let ghost mut touched: Option<(int, int)> = None;
    let mut offset_x: i64 = -(radius as i64);
    while offset_x <= radius as i64
        invariant
            fb.wf(),
            fb.width == old(fb).width,
            fb.height == old(fb).height,
            fb.background_color == old(fb).background_color,
            -r <= offset_x,
            radius >= 0 ==> offset_x <= r + 1,
            cx == center_x,
            cy == center_y,
            r == radius,
            hh == half_heights@,
            i32::MIN < radius,
            radius >= 0 ==> half_heights@.len() == 2 * radius + 1,
            radius >= 0 ==> i32::MIN <= center_x - radius && center_x + radius <= i32::MAX,
            forall|k: int|
                #![trigger half_heights@[k]]
                0 <= k < half_heights@.len() && radius >= 0 ==> i32::MIN <= center_y
                    - half_heights@[k] && center_y + half_heights@[k] <= i32::MAX,
            forall|x: int, y: int| #[trigger]
                fb.in_bounds(x, y) ==> fb.pixel(x, y) == if in_circle(cx, cy, r, hh, x, y) && x
                    - cx < offset_x {
                    color
                } else {
                    old(fb).pixel(x, y)
                },
            match touched {
                Some(point) => {
                    &&& fb.current_color == color
                    &&& 0 <= point.0 && 0 <= point.1
                    &&& in_circle(cx, cy, r, hh, point.0, point.1)
                },
                None => {
                    &&& fb.current_color == old(fb).current_color
                    &&& forall|x: int, y: int|
                        0 <= x && 0 <= y && #[trigger] in_circle(cx, cy, r, hh, x, y) ==> x - cx
                            >= offset_x
                },
            },
        decreases radius - offset_x + 1,
    {
        let column = (offset_x + radius as i64) as usize;
        let half_height = half_heights[column] as i64;
        assert(half_heights@[column as int] == half_height);
        let pixel_x = center_x as i64 + offset_x;
        let ghost column_start = center_y as int - half_height;
        let mut pixel_y = center_y as i64 - half_height;
        while pixel_y <= center_y as i64 + half_height
            invariant
                fb.wf(),
                fb.width == old(fb).width,
                fb.height == old(fb).height,
                fb.background_color == old(fb).background_color,
                -r <= offset_x <= r,
                half_height == hh[offset_x + r],
                pixel_x == cx + offset_x,
                column_start == cy - half_height,
                column_start <= pixel_y || half_height < 0,
                pixel_y <= cy + half_height + 1 || half_height < 0,
                half_height < 0 ==> pixel_y == column_start,
                cx == center_x,
                cy == center_y,
                r == radius,
                hh == half_heights@,
                i32::MIN < radius,
                radius >= 0 ==> i32::MIN <= center_x - radius && center_x + radius <= i32::MAX,
                i32::MIN <= cy - half_height && cy + half_height <= i32::MAX,
                forall|x: int, y: int| #[trigger]
                    fb.in_bounds(x, y) ==> fb.pixel(x, y) == if (in_circle(cx, cy, r, hh, x, y)
                        && x - cx < offset_x) || (x == pixel_x && column_start <= y < pixel_y) {
                        color
                    } else {
                        old(fb).pixel(x, y)
                    },
                match touched {
                    Some(point) => {
                        &&& fb.current_color == color
                        &&& 0 <= point.0 && 0 <= point.1
                        &&& (in_circle(cx, cy, r, hh, point.0, point.1) || (point.0 == pixel_x
                            && column_start <= point.1 < pixel_y))
                    },
                    None => {
                        &&& fb.current_color == old(fb).current_color
                        &&& forall|x: int, y: int|
                            0 <= x && 0 <= y && #[trigger] in_circle(cx, cy, r, hh, x, y) ==> x
                                - cx >= offset_x
                        &&& (0 <= pixel_x ==> pixel_y <= 0 || pixel_y <= column_start)
                    },
                },
            decreases cy + half_height + 1 - pixel_y,
        {
            let ghost before = *fb;
            if pixel_x >= 0 && pixel_y >= 0 {
                fb.set_current_color(color);
                fb.set_pixel(pixel_x as u32, pixel_y as u32);
                proof {
                    assert(pixel_x as u32 == pixel_x);
                    assert(pixel_y as u32 == pixel_y);
                    touched = Some((pixel_x as int, pixel_y as int));
                }
            }
            proof {
                assert forall|x: int, y: int| #[trigger] fb.in_bounds(x, y) implies fb.pixel(x, y)
                    == if (in_circle(cx, cy, r, hh, x, y) && x - cx < offset_x) || (x == pixel_x
                    && column_start <= y < pixel_y + 1) {
                    color
                } else {
                    old(fb).pixel(x, y)
                } by {
                    assert(before.in_bounds(x, y));
                }
            }
            pixel_y += 1;
        }
        proof {
            assert forall|x: int, y: int| x == pixel_x implies (column_start <= y <= cy + half_height
                <==> #[trigger] in_circle(cx, cy, r, hh, x, y)) by {}
        }
        offset_x += 1;
    }
}

} // verus!
