use vstd::prelude::*;

verus! {

/// A clickable rectangle of a menu screen, in the coordinates of the screen's
/// image; `active` records whether the last click hit it.
pub struct Button {
    pub start_x: u32,
    pub end_x: u32,
    pub start_y: u32,
    pub end_y: u32,
    pub active: bool,
    pub label: &'static str,
}

/// A text drawn on a menu screen, with a black outline `outline_size` wide.
#[derive(Clone, Copy)]
pub struct InterfaceText {
    pub text: &'static str,
    pub x: i32,
    pub y: i32,
    pub font_size: i32,
    pub outline_size: i32,
}

/// A menu screen: its buttons, its texts and the image drawn behind them.
pub struct Interface<Image> {
    pub buttons: Vec<Button>,
    pub text: Vec<InterfaceText>,
    pub image: Image,
}

impl Button {
    /// Whether the point (`x`, `y`) lies in the button, its edges included.
    pub open spec fn contains(&self, x: u32, y: u32) -> bool {
        self.start_x <= x <= self.end_x && self.start_y <= y <= self.end_y
    }

    /// A button over the rectangle from (`sx`, `sy`) to (`ex`, `ey`), not
    /// yet clicked.
    pub fn new(sx: u32, ex: u32, sy: u32, ey: u32, label: &'static str) -> (b: Button)
        ensures
            b.start_x == sx,
            b.end_x == ex,
            b.start_y == sy,
            b.end_y == ey,
            !b.active,
            b.label == label,
    {
        Button { start_x: sx, end_x: ex, start_y: sy, end_y: ey, active: false, label }
    }

    /// Reports whether a click at (`x`, `y`) hits the button, and records it
    /// in `active`.
    pub fn check_click(&mut self, x: u32, y: u32) -> (hit: bool)
        ensures
            hit == old(self).contains(x, y),
            *final(self) == (Button { active: hit, ..*old(self) }),
    {
        if x >= self.start_x && x <= self.end_x && y >= self.start_y && y <= self.end_y {
            self.active = true;
            true
        } else {
            self.active = false;
            false
        }
    }
}

/// The labels of the buttons that contain (`x`, `y`), in the buttons' order.
pub open spec fn labels_hit(buttons: Seq<Button>, x: u32, y: u32) -> Seq<&'static str>
    decreases buttons.len(),
{
    if buttons.len() == 0 {
        seq![]
    } else {
        let earlier = labels_hit(buttons.drop_last(), x, y);
        if buttons.last().contains(x, y) {
            earlier.push(buttons.last().label)
        } else {
            earlier
        }
    }
}

impl<Image> Interface<Image> {
    pub fn new(buttons: Vec<Button>, text: Vec<InterfaceText>, img: Image) -> (i: Interface<Image>)
        ensures
            i == (Interface { buttons, text, image: img }),
    {
        Interface { buttons, text, image: img }
    }

    /// Checks a click at (`x`, `y`) against every button in turn: each button
    /// records whether it was hit, and the labels of the buttons hit come
    /// back in the buttons' order.
    pub fn click(&mut self, x: u32, y: u32) -> (hits: Vec<&'static str>)
        ensures
            final(self).text == old(self).text,
            final(self).image == old(self).image,
            final(self).buttons@.len() == old(self).buttons@.len(),
            forall|i: int|
                0 <= i < old(self).buttons@.len() ==> #[trigger] final(self).buttons@[i] == (Button {
                    active: old(self).buttons@[i].contains(x, y),
                    ..old(self).buttons@[i]
                }),
            hits@ == labels_hit(old(self).buttons@, x, y),
    {
        let mut hits: Vec<&'static str> = Vec::new();
        let mut i: usize = 0;
        while i < self.buttons.len()
            invariant
                i <= self.buttons@.len(),
                self.text == old(self).text,
                self.image == old(self).image,
                self.buttons@.len() == old(self).buttons@.len(),
                forall|j: int|
                    0 <= j < i ==> #[trigger] self.buttons@[j] == (Button {
                        active: old(self).buttons@[j].contains(x, y),
                        ..old(self).buttons@[j]
                    }),
                forall|j: int| i <= j < self.buttons@.len() ==> #[trigger] self.buttons@[j] == old(
                    self,
                ).buttons@[j],
                hits@ == labels_hit(old(self).buttons@.take(i as int), x, y),
            decreases self.buttons@.len() - i,
        {
            let hit = x >= self.buttons[i].start_x && x <= self.buttons[i].end_x && y
                >= self.buttons[i].start_y && y <= self.buttons[i].end_y;
            let pressed = Button {
                start_x: self.buttons[i].start_x,
                end_x: self.buttons[i].end_x,
                start_y: self.buttons[i].start_y,
                end_y: self.buttons[i].end_y,
                active: hit,
                label: self.buttons[i].label,
            };
            if hit {
                hits.push(self.buttons[i].label);
            }
            self.buttons.set(i, pressed);
            assert(old(self).buttons@.take(i + 1).drop_last() == old(self).buttons@.take(i as int));
            i += 1;
        }
        assert(old(self).buttons@.take(i as int) == old(self).buttons@);
        hits
    }
}

/// A button holds exactly the points of its rectangle, edges included: a
/// point left of, right of, above or below it is not in it.
pub proof fn button_is_its_rectangle(button: Button, x: u32, y: u32)
    ensures
        x < button.start_x ==> !button.contains(x, y),
        x > button.end_x ==> !button.contains(x, y),
        y < button.start_y ==> !button.contains(x, y),
        y > button.end_y ==> !button.contains(x, y),
        button.start_x <= x <= button.end_x && button.start_y <= y <= button.end_y
            ==> button.contains(x, y),
{
}

/// A click reports at most one label per button, and only labels of buttons
/// whose rectangle holds the point; a click outside every button reports
/// nothing.
pub proof fn click_reports_only_buttons_under_the_point(buttons: Seq<Button>, x: u32, y: u32)
    ensures
        labels_hit(buttons, x, y).len() <= buttons.len(),
        forall|k: int|
            0 <= k < labels_hit(buttons, x, y).len() ==> exists|i: int|
                0 <= i < buttons.len() && buttons[i].start_x <= x <= buttons[i].end_x
                    && buttons[i].start_y <= y <= buttons[i].end_y && buttons[i].label
                    == #[trigger] labels_hit(buttons, x, y)[k],
        (forall|i: int|
            0 <= i < buttons.len() ==> x < buttons[i].start_x || x > buttons[i].end_x || y
                < buttons[i].start_y || y > buttons[i].end_y) ==> labels_hit(buttons, x, y).len()
            == 0,
    decreases buttons.len(),
{
    if buttons.len() > 0 {
        let earlier = buttons.drop_last();
        click_reports_only_buttons_under_the_point(earlier, x, y);
        let hits = labels_hit(buttons, x, y);
        let earlier_hits = labels_hit(earlier, x, y);
        assert forall|k: int| 0 <= k < hits.len() implies exists|i: int|
            0 <= i < buttons.len() && buttons[i].start_x <= x <= buttons[i].end_x
                && buttons[i].start_y <= y <= buttons[i].end_y && buttons[i].label
                == #[trigger] hits[k] by {
            if k < earlier_hits.len() {
                assert(hits[k] == earlier_hits[k]);
                let i = choose|i: int|
                    0 <= i < earlier.len() && earlier[i].start_x <= x <= earlier[i].end_x
                        && earlier[i].start_y <= y <= earlier[i].end_y && earlier[i].label
                        == #[trigger] earlier_hits[k];
                assert(buttons[i] == earlier[i]);
            } else {
                assert(buttons[buttons.len() - 1] == buttons.last());
            }
        }
        if forall|i: int|
            0 <= i < buttons.len() ==> x < buttons[i].start_x || x > buttons[i].end_x || y
                < buttons[i].start_y || y > buttons[i].end_y {
            assert forall|i: int| 0 <= i < earlier.len() implies x < earlier[i].start_x || x
                > earlier[i].end_x || y < earlier[i].start_y || y > earlier[i].end_y by {
                assert(earlier[i] == buttons[i]);
            }
            assert(buttons[buttons.len() - 1] == buttons.last());
        }
    }
}

} // verus!
