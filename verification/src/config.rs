//! Key bindings and the shapes of the pieces.
use vstd::prelude::*;

verus! {

/// The input axes of the game.
#[derive(Clone, Copy, Debug, Hash, PartialEq, Eq, Structural)]
pub enum AxisBinding {
    Horizontal,
    Vertical,
}

/// The input actions of the game.
#[derive(Clone, Copy, Debug, Hash, PartialEq, Eq, Structural)]
pub enum ActionBinding {
    Shoot,
    RotateRight,
    RotateLeft,
    Debug,
    NoGrav,
}

/// The name of an axis, as it is displayed.
pub open spec fn axis_binding_name(a: AxisBinding) -> Seq<char> {
    match a {
        AxisBinding::Horizontal => "Horizontal"@,
        AxisBinding::Vertical => "Vertical"@,
    }
}

/// The name of an action, as it is displayed.
pub open spec fn action_binding_name(a: ActionBinding) -> Seq<char> {
    match a {
        ActionBinding::Shoot => "Shoot"@,
        ActionBinding::RotateRight => "RotateRight"@,
        ActionBinding::RotateLeft => "RotateLeft"@,
        ActionBinding::Debug => "Debug"@,
        ActionBinding::NoGrav => "NoGrav"@,
    }
}

impl AxisBinding {
    /// The displayed name of the axis: the name of its variant.
    pub fn to_display_string(&self) -> (s: String)
        ensures
            s@ == axis_binding_name(*self),
    {
        match self {
            AxisBinding::Horizontal => String::from_str("Horizontal"),
            AxisBinding::Vertical => String::from_str("Vertical"),
        }
    }
}

impl ActionBinding {
    /// The displayed name of the action: the name of its variant.
    pub fn to_display_string(&self) -> (s: String)
        ensures
            s@ == action_binding_name(*self),
    {
        match self {
            ActionBinding::Shoot => String::from_str("Shoot"),
            ActionBinding::RotateRight => String::from_str("RotateRight"),
            ActionBinding::RotateLeft => String::from_str("RotateLeft"),
            ActionBinding::Debug => String::from_str("Debug"),
            ActionBinding::NoGrav => String::from_str("NoGrav"),
        }
    }
}

/// The binding types of the game's input: `AxisBinding` and `ActionBinding`.
pub struct MovementBindingTypes;

/// The span of cells, relative to a piece's origin, that a quarter turn
/// sweeps, for each direction of turn: (first, last), counted in cells.
#[derive(Clone, Copy, Debug, Default)]
pub struct Offset {
    pub right_rotate: (i32, i32),
    pub left_rotate: (i32, i32),
}

/// The shape of one piece: the pixel offsets of its blocks from the piece's
/// position, which of them is the origin of the piece, and the spans swept
/// by its turns.
#[derive(Clone, Debug)]
pub struct Block {
    pub locations: Vec<(i64, i64)>,
    pub origin: u32,
    pub offset: Option<Offset>,
    pub sub_offset: Option<Offset>,
}

/// The shapes of all pieces.
#[derive(Clone, Debug)]
pub struct BlocksConfig {
    pub blocks: Vec<Block>,
}

impl Block {
    /// The shape with no block, origin 0 and no turn spans.
    pub open spec fn is_default(&self) -> bool {
        &&& self.locations@.len() == 0
        &&& self.origin == 0
        &&& self.offset is None
        &&& self.sub_offset is None
    }

    /// Two shapes hold the same values.
    pub open spec fn same_as(&self, other: &Block) -> bool {
        &&& self.locations@ == other.locations@
        &&& self.origin == other.origin
        &&& self.offset == other.offset
        &&& self.sub_offset == other.sub_offset
    }

    /// A copy of this shape.
    pub fn duplicate(&self) -> (res: Block)
        ensures
            res.same_as(self),
    {
        let mut locations: Vec<(i64, i64)> = Vec::new();
        let mut k: usize = 0;
        while k < self.locations.len()
            invariant
                k <= self.locations@.len(),
                locations@ == self.locations@.subrange(0, k as int),
            decreases self.locations@.len() - k,
        {
            let p: (i64, i64) = self.locations[k];
            locations.push(p);
            k = k + 1;
            assert(locations@ =~= self.locations@.subrange(0, k as int));
        }
        assert(locations@ =~= self.locations@);
        Block { locations, origin: self.origin, offset: self.offset, sub_offset: self.sub_offset }
    }
}

impl Default for Block {
    fn default() -> (res: Block)
        ensures
            res.is_default(),
    {
        Block { locations: Vec::new(), origin: 0, offset: None, sub_offset: None }
    }
}

impl Default for BlocksConfig {
    fn default() -> (res: BlocksConfig)
        ensures
            res.blocks@.len() == 0,
    {
        BlocksConfig { blocks: Vec::new() }
    }
}

impl BlocksConfig {
    /// A configuration with a single, default shape.
    pub fn new() -> (res: Self)
        ensures
            res.blocks@.len() == 1,
            res.blocks@[0].is_default(),
    {
        let mut blocks: Vec<Block> = Vec::new();
        blocks.push(Block::default());
        BlocksConfig { blocks }
    }
}

} // verus!
