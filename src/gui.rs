//! Components drawn on a screen.
use vstd::prelude::*;
use vstd::string::StringExecFns;

verus! {

/// Something that can be drawn.  Drawing yields the text that shows it.
pub trait Draw {
    /// The text that shows this component.
    spec fn drawing(&self) -> Seq<char>;

    fn draw(&self) -> (r: String)
        ensures
            r@ == self.drawing(),
    ;
}

/// A screen of components, drawn in order.
pub struct Screen {
    pub components: Vec<Box<dyn Draw>>,
}

impl Screen {
    /// Draws every component in order, one text for each.
    pub fn run(&self) -> (r: Vec<String>)
        ensures
            r@.len() == self.components@.len(),
            forall|i: int| 0 <= i < r@.len() ==> (#[trigger] r@[i])@ == self.components@[i].drawing(),
    {
        let mut out: Vec<String> = Vec::new();
        let mut i: usize = 0;
        while i < self.components.len()
            invariant
                i <= self.components@.len(),
                out@.len() == i,
                forall|j: int| 0 <= j < i ==> (#[trigger] out@[j])@ == self.components@[j].drawing(),
            decreases self.components@.len() - i,
        {
            let text = self.components[i].draw();
            out.push(text);
            i = i + 1;
        }
        out
    }
}

/// The decimal digit `d`, for `d` below ten.
pub open spec fn digit_char(d: nat) -> char {
    seq!['0', '1', '2', '3', '4', '5', '6', '7', '8', '9'][d as int]
}

/// The decimal numeral of `n`, without leading zeros.
pub open spec fn decimal(n: nat) -> Seq<char>
    decreases n,
{
    if n < 10 {
        seq![digit_char(n)]
    } else {
        decimal(n / 10).push(digit_char(n % 10))
    }
}

fn digit_text(d: u32) -> (r: &'static str)
    requires
        d < 10,
    ensures
        r@ == seq![digit_char(d as nat)],
{
    proof {
        reveal_strlit("0");
        reveal_strlit("1");
        reveal_strlit("2");
        reveal_strlit("3");
        reveal_strlit("4");
        reveal_strlit("5");
        reveal_strlit("6");
        reveal_strlit("7");
        reveal_strlit("8");
        reveal_strlit("9");
    }
    match d {
        0 => "0",
        1 => "1",
        2 => "2",
        3 => "3",
        4 => "4",
        5 => "5",
        6 => "6",
        7 => "7",
        8 => "8",
        _ => "9",
    }
}

/// The decimal numeral of `n`.
pub fn decimal_text(n: u32) -> (r: String)
    ensures
        r@ == decimal(n as nat),
    decreases n,
{
    if n < 10 {
        String::from_str(digit_text(n))
    } else {
        let mut s = decimal_text(n / 10);
        let d = digit_text(n % 10);
        s.append(d);
        proof {
            assert(decimal(n as nat) == decimal((n / 10) as nat).push(digit_char((n % 10) as nat)));
            assert(s@ =~= decimal(n as nat));
        }
        s
    }
}

pub struct Button {
    pub width: u32,
    pub height: u32,
    pub label: String,
}

impl Draw for Button {
    /// `Drawing a button with width: W, height: H, label: L`.
    open spec fn drawing(&self) -> Seq<char> {
        "Drawing a button with width: "@ + decimal(self.width as nat) + ", height: "@ + decimal(
            self.height as nat,
        ) + ", label: "@ + self.label@
    }

    fn draw(&self) -> (r: String) {
        let mut s = String::from_str("Drawing a button with width: ");
        let w = decimal_text(self.width);
        s.append(w.as_str());
        s.append(", height: ");
        let h = decimal_text(self.height);
        s.append(h.as_str());
        s.append(", label: ");
        s.append(self.label.as_str());
        s
    }
}

} // verus!
