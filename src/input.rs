//! The per-frame input snapshot: cursor position, buttons and keys held, pressed and
//! released during the frame, and the cursor icon the application asks for.

use vstd::prelude::*;

verus! {

/// A mouse button or a keyboard key, by its platform code.
#[derive(Clone, Copy, Debug, PartialEq, Eq, Structural)]
pub enum Button {
    Mouse(u16),
    Key(u32),
}

/// The cursor icons an application can ask for.
#[derive(Clone, Copy, Debug, PartialEq, Eq, Structural)]
pub enum CursorIcon {
    Default,
    Pointer,
    Text,
    Crosshair,
    Move,
    Grab,
    Grabbing,
    NotAllowed,
    ResizeHorizontal,
    ResizeVertical,
}

/// A raw input event.
#[derive(Clone, Copy, Debug, PartialEq, Eq, Structural)]
pub enum InputEvent {
    /// The cursor moved to a position in the window.
    CursorMoved { x: i32, y: i32 },
    /// A button or key went down.
    Pressed(Button),
    /// A button or key went up.
    Released(Button),
}

/// The contents of an input snapshot.
pub struct InputView {
    pub cursor: (i32, i32),
    pub down: Set<Button>,
    pub pressed: Set<Button>,
    pub released: Set<Button>,
    pub cursor_icon: CursorIcon,
}

/// The buttons a list holds.
pub open spec fn set_of(v: Seq<Button>) -> Set<Button> {
    Set::new(|b: Button| v.contains(b))
}

/// What an event does to the snapshot: a press of a button that is up marks it held and
/// pressed this frame, a release of a held one marks it up and released this frame.
pub open spec fn after_input(v: InputView, event: InputEvent) -> InputView {
    match event {
        InputEvent::CursorMoved { x, y } => InputView { cursor: (x, y), ..v },
        InputEvent::Pressed(b) => if v.down.contains(b) {
            v
        } else {
            InputView { down: v.down.insert(b), pressed: v.pressed.insert(b), ..v }
        },
        InputEvent::Released(b) => if v.down.contains(b) {
            InputView { down: v.down.remove(b), released: v.released.insert(b), ..v }
        } else {
            v
        },
    }
}

/// The snapshot with no input yet.
pub open spec fn fresh_input() -> InputView {
    InputView {
        cursor: (0, 0),
        down: Set::empty(),
        pressed: Set::empty(),
        released: Set::empty(),
        cursor_icon: CursorIcon::Default,
    }
}

fn contains(v: &Vec<Button>, b: Button) -> (r: bool)
    ensures
        r == v@.contains(b),
{
    let mut i: usize = 0;
    while i < v.len()
        invariant
            i <= v@.len(),
            forall|j: int| 0 <= j < i ==> v@[j] != b,
        decreases v@.len() - i,
    {
        if v[i] == b {
            return true;
        }
        i = i + 1;
    }
    false
}

fn insert(v: &mut Vec<Button>, b: Button)
    ensures
        set_of(final(v)@) == set_of(old(v)@).insert(b),
{
    if !contains(v, b) {
        v.push(b);
    }
    assert(set_of(v@) =~= set_of(old(v)@).insert(b)) by {
        assert forall|x: Button| #[trigger] v@.contains(x) <==> (old(v)@.contains(x) || x == b) by {
            if old(v)@.contains(x) {
                let j = choose|j: int| 0 <= j < old(v)@.len() && old(v)@[j] == x;
                assert(v@[j] == x);
            }
            if x == b && !old(v)@.contains(b) {
                assert(v@[v@.len() - 1] == x);
            }
        }
    }
}

fn remove(v: &mut Vec<Button>, b: Button)
    ensures
        set_of(final(v)@) == set_of(old(v)@).remove(b),
{
    let mut kept: Vec<Button> = Vec::new();
    let mut i: usize = 0;
    while i < v.len()
        invariant
            i <= v@.len(),
            forall|x: Button| #[trigger] kept@.contains(x) ==> x != b && v@.contains(x),
            forall|j: int| 0 <= j < i && v@[j] != b ==> kept@.contains(#[trigger] v@[j]),
        decreases v@.len() - i,
    {
        let x = v[i];
        let ghost before = kept@;
        if x != b {
            kept.push(x);
            assert forall|y: Button| #[trigger] kept@.contains(y) implies y != b && v@.contains(y) by {
                let j = choose|j: int| 0 <= j < kept@.len() && kept@[j] == y;
                if j < before.len() {
                    assert(before[j] == y);
                    assert(before.contains(y));
                } else {
                    assert(v@[i as int] == y);
                }
            }
            assert forall|j: int| 0 <= j < i + 1 && v@[j] != b implies kept@.contains(#[trigger] v@[j]) by {
                if j < i {
                    let k = choose|k: int| 0 <= k < before.len() && before[k] == v@[j];
                    assert(kept@[k] == v@[j]);
                } else {
                    assert(kept@[kept@.len() - 1] == v@[j]);
                }
            }
        }
        i = i + 1;
    }
    assert(set_of(kept@) =~= set_of(v@).remove(b)) by {
        assert forall|x: Button| set_of(v@).remove(b).contains(x) implies #[trigger] kept@.contains(x) by {
            let j = choose|j: int| 0 <= j < v@.len() && v@[j] == x;
        }
    }
    *v = kept;
}

/// The input snapshot of one frame.
pub struct Input {
    cursor: (i32, i32),
    down: Vec<Button>,
    pressed: Vec<Button>,
    released: Vec<Button>,
    cursor_icon: CursorIcon,
}

impl View for Input {
    type V = InputView;

    closed spec fn view(&self) -> InputView {
        InputView {
            cursor: self.cursor,
            down: set_of(self.down@),
            pressed: set_of(self.pressed@),
            released: set_of(self.released@),
            cursor_icon: self.cursor_icon,
        }
    }
}

impl Input {
    /// A snapshot with no input yet.
    pub fn new() -> (r: Input)
        ensures
            r@ == fresh_input(),
    {
        let r = Input {
            cursor: (0, 0),
            down: Vec::new(),
            pressed: Vec::new(),
            released: Vec::new(),
            cursor_icon: CursorIcon::Default,
        };
        assert(r@.down =~= Set::<Button>::empty());
        assert(r@.pressed =~= Set::<Button>::empty());
        assert(r@.released =~= Set::<Button>::empty());
        r
    }

    /// Takes in one raw input event.
    pub fn process_event(&mut self, event: InputEvent)
        ensures
            final(self)@ == after_input(old(self)@, event),
    {
        match event {
            InputEvent::CursorMoved { x, y } => {
                self.cursor = (x, y);
            },
            InputEvent::Pressed(b) => {
                if !contains(&self.down, b) {
                    insert(&mut self.down, b);
                    insert(&mut self.pressed, b);
                }
            },
            InputEvent::Released(b) => {
                if contains(&self.down, b) {
                    remove(&mut self.down, b);
                    insert(&mut self.released, b);
                }
            },
        }
    }

    /// The last cursor position.
    pub fn cursor_position(&self) -> (r: (i32, i32))
        ensures
            r == self@.cursor,
    {
        self.cursor
    }

    /// Whether a button or key is held.
    pub fn is_down(&self, b: Button) -> (r: bool)
        ensures
            r == self@.down.contains(b),
    {
        contains(&self.down, b)
    }

    /// Whether a button or key went down during this frame.
    pub fn was_pressed(&self, b: Button) -> (r: bool)
        ensures
            r == self@.pressed.contains(b),
    {
        contains(&self.pressed, b)
    }

    /// Whether a button or key went up during this frame.
    pub fn was_released(&self, b: Button) -> (r: bool)
        ensures
            r == self@.released.contains(b),
    {
        contains(&self.released, b)
    }

    /// Asks for a cursor icon; the last request of a frame is the one applied.
    pub fn set_cursor(&mut self, icon: CursorIcon)
        ensures
            final(self)@ == (InputView { cursor_icon: icon, ..old(self)@ }),
    {
        self.cursor_icon = icon;
    }

    /// The cursor icon asked for.
    pub fn requested_cursor(&self) -> (r: CursorIcon)
        ensures
            r == self@.cursor_icon,
    {
        self.cursor_icon
    }

    /// Ends the frame: returns the cursor icon to apply to the window, and forgets what
    /// was pressed and released during the frame.
    pub fn finish_frame(&mut self) -> (icon: CursorIcon)
        ensures
            icon == old(self)@.cursor_icon,
            final(self)@ == (InputView {
                pressed: Set::empty(),
                released: Set::empty(),
                ..old(self)@
            }),
    {
        self.pressed = Vec::new();
        self.released = Vec::new();
        assert(set_of(self.pressed@) =~= Set::<Button>::empty());
        assert(set_of(self.released@) =~= Set::<Button>::empty());
        self.cursor_icon
    }
}

} // verus!
