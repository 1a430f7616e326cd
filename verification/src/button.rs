//! A push button's state: whether it is held down, and the color it shows.
//!
//! The button's place on the screen and its drawing belong to whoever draws
//! it; what is kept here is what a press and a release change.

use vstd::prelude::*;
use vstd::string::*;

verus! {

/// A color by its red, green and blue parts.
#[derive(Clone, Copy, Debug, PartialEq, Eq, Structural)]
pub struct Rgb {
    pub r: u8,
    pub g: u8,
    pub b: u8,
}

/// The color of a button that is not held down.
pub open spec fn normal_color() -> Rgb {
    Rgb { r: 255, g: 0, b: 0 }
}

/// The color of a button that is held down.
pub open spec fn clicked_color() -> Rgb {
    Rgb { r: 128, g: 0, b: 0 }
}

/// The settings of a button, built up call by call.
#[derive(Debug, PartialEq, Eq)]
pub struct ButtonBuilder {
    /// The button's label.
    pub text: String,
}

/// A push button.
#[derive(Debug, PartialEq, Eq)]
pub struct Button {
    /// The button's label.
    pub text: String,
    /// Whether the button is held down.
    pub keydown: bool,
    /// Whether the button has been released since it was built.
    pub new_key_up: bool,
    /// The color that the button shows.
    pub color: Rgb,
    /// The color that the button shows while it is not held down.
    pub normal_color: Rgb,
    /// The color that the button shows while it is held down.
    pub clicked_color: Rgb,
}

impl ButtonBuilder {
    /// The settings of a button without a label.
    pub fn new() -> (builder: Self)
        ensures
            builder.text@ == Seq::<char>::empty(),
    {
        ButtonBuilder { text: String::new() }
    }

    /// The same settings with the label `text`.
    pub fn text(self, text: &str) -> (builder: Self)
        ensures
            builder.text@ == text@,
    {
        let mut builder = self;
        builder.text = String::from_str(text);
        builder
    }

    /// The button of these settings: it is not held down, it has not been
    /// released, and it shows its normal color.
    pub fn build(self) -> (button: Button)
        ensures
            button == (Button {
                text: self.text,
                keydown: false,
                new_key_up: false,
                color: normal_color(),
                normal_color: normal_color(),
                clicked_color: clicked_color(),
            }),
    {
        Button {
            text: self.text,
            keydown: false,
            new_key_up: false,
            color: Rgb { r: 255, g: 0, b: 0 },
            normal_color: Rgb { r: 255, g: 0, b: 0 },
            clicked_color: Rgb { r: 128, g: 0, b: 0 },
        }
    }
}

impl Button {
    /// The color that the button is to show: the clicked color while it is
    /// held down, the normal color otherwise.
    pub open spec fn due_color(self) -> Rgb {
        if self.keydown {
            self.clicked_color
        } else {
            self.normal_color
        }
    }

    /// Brings the shown color up to date, once per frame.
    pub fn update(&mut self)
        ensures
            *final(self) == (Button { color: old(self).due_color(), ..*old(self) }),
    {
        if self.keydown && !same_color(self.color, self.clicked_color) {
            self.color.r = self.clicked_color.r;
            self.color.g = self.clicked_color.g;
            self.color.b = self.clicked_color.b;
        } else if !self.keydown && !same_color(self.color, self.normal_color) {
            self.color.r = self.normal_color.r;
            self.color.g = self.normal_color.g;
            self.color.b = self.normal_color.b;
        }
    }

    /// The button is pressed.
    pub fn on_keydown(&mut self)
        ensures
            *final(self) == (Button { keydown: true, ..*old(self) }),
    {
        self.keydown = true;
    }

    /// The button is released. The caller then runs the button's handler.
    pub fn on_keyup(&mut self)
        ensures
            *final(self) == (Button { keydown: false, new_key_up: true, ..*old(self) }),
    {
        self.keydown = false;
        self.new_key_up = true;
    }
}

/// Whether two colors are the same.
fn same_color(a: Rgb, b: Rgb) -> (same: bool)
    ensures
        same == (a == b),
{
    a.r == b.r && a.g == b.g && a.b == b.b
}

} // verus!
