use vstd::prelude::*;

verus! {

/// A boolean stored in one byte, for records with a fixed layout.
#[derive(Clone, Copy, PartialEq, Eq, Structural, Default)]
pub struct BoolU8(pub u8);

impl BoolU8 {
    pub const TRUE: u8 = 1;

    pub const FALSE: u8 = 0;

    /// The flag this byte stands for: set exactly when the byte is `TRUE`.
    pub open spec fn view(&self) -> bool {
        self.0 == Self::TRUE
    }

    pub fn new(value: bool) -> (flag: Self)
        ensures
            flag.0 == (if value { Self::TRUE } else { Self::FALSE }),
            flag@ == value,
    {
        Self(if value { Self::TRUE } else { Self::FALSE })
    }

    pub fn is_true(&self) -> (set: bool)
        ensures
            set == self@,
    {
        self.0 == Self::TRUE
    }
}

} // verus!
