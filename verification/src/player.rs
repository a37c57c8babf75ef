//! What the player owns and carries, the progress of the block being mined,
//! and the text the heads-up display shows for them.
use vstd::prelude::*;
use vstd::string::*;
use crate::text::{decimal, append_decimal, str_equal, decimal_reads_back, is_numeral, numeral_value};

verus! {

/// Nanoseconds in one second; game time is counted in nanoseconds.
pub const NANOS_PER_SECOND: u64 = 1_000_000_000;

/// Mining progress is a fraction counted in millionths: this is a whole block.
pub const PROGRESS_FULL: u32 = 1_000_000;

/// A mining tool: how long one block takes with it, how much it mines, and
/// what it costs in the shop.
pub struct Tool {
    pub name: String,
    /// Time to mine one block, in nanoseconds.
    pub use_time: u64,
    pub mine_quantity: i32,
    pub cost: i32,
}

/// What the player carries mined blocks in.
pub struct Backpack {
    pub name: String,
    /// How many blocks it holds.
    pub capacity: i32,
    pub cost: i32,
}

/// A block standing in the world, with the weight that is still to be mined.
pub struct BlockInstance {
    pub weight_left: i32,
}

/// A kind of block: from which depth on it appears and how heavy it is.
pub struct BlockDefinition {
    pub since_depth: i32,
    pub weight: i32,
}

/// All kinds of block.
pub struct BlockDefinitions {
    blocks: Vec<BlockDefinition>,
}

/// The player's equipment, load and money.
pub struct Inventory {
    pub tool: Tool,
    pub backpack: Backpack,
    /// Blocks in the backpack.
    pub carrying: i32,
    pub money: i32,
}

/// The block being mined, when the player started on it (in nanoseconds of
/// game time) and how far along it is (in millionths, up to `PROGRESS_FULL`).
#[derive(Clone, Copy, Debug, PartialEq, Eq, Structural)]
pub struct MineProgress {
    pub block: Option<u64>,
    pub start: u64,
    pub progress: u32,
}

impl MineProgress {
    /// Nothing is being mined.
    pub open spec fn idle() -> MineProgress {
        MineProgress { block: None, start: 0, progress: 0 }
    }

    /// Progress never exceeds a whole block.
    pub open spec fn well_formed(self) -> bool {
        self.progress <= PROGRESS_FULL
    }

    /// The progress of a game that has just started: nothing being mined.
    pub fn new() -> (p: MineProgress)
        ensures
            p == MineProgress::idle(),
    {
        MineProgress { block: None, start: 0, progress: 0 }
    }

    /// Forgets the block being mined and its progress.
    pub fn reset(&mut self)
        ensures
            *final(self) == MineProgress::idle(),
    {
        self.block = None;
        self.start = 0;
        self.progress = 0;
    }
}

/// The equipment a new game starts with: a spoon that mines one block per
/// second and bare hands that hold five blocks, nothing carried, no money.
pub fn starting_inventory() -> (inv: Inventory)
    ensures
        inv.tool.name@ == "Spoon"@,
        inv.tool.use_time == NANOS_PER_SECOND,
        inv.tool.mine_quantity == 1,
        inv.tool.cost == 0,
        inv.backpack.name@ == "Hands"@,
        inv.backpack.capacity == 5,
        inv.backpack.cost == 0,
        inv.carrying == 0,
        inv.money == 0,
{
    let tool = Tool {
        name: String::from_str("Spoon"),
        use_time: NANOS_PER_SECOND,
        mine_quantity: 1,
        cost: 0,
    };
    let backpack = Backpack { name: String::from_str("Hands"), capacity: 5, cost: 0 };
    Inventory { tool, backpack, carrying: 0, money: 0 }
}

/// The elements of the heads-up display that show the player's state.
#[derive(Clone, Copy, Debug, PartialEq, Eq, Structural)]
pub enum UiElement {
    Money,
    Tool,
    Backpack,
    Carry,
    MineProgress,
}

/// The element that a display id names, if it names one.
pub open spec fn ui_element_named(id: Seq<char>) -> Option<UiElement> {
    if id == "money"@ {
        Some(UiElement::Money)
    } else if id == "tool"@ {
        Some(UiElement::Tool)
    } else if id == "backpack"@ {
        Some(UiElement::Backpack)
    } else if id == "carry"@ {
        Some(UiElement::Carry)
    } else if id == "mine progress"@ {
        Some(UiElement::MineProgress)
    } else {
        None
    }
}

impl UiElement {
    /// The element with display id `id`: "money", "tool", "backpack",
    /// "carry" or "mine progress".
    pub fn from_id(id: &str) -> (r: Option<UiElement>)
        ensures
            r == ui_element_named(id@),
    {
        if str_equal(id, "money") {
            Some(UiElement::Money)
        } else if str_equal(id, "tool") {
            Some(UiElement::Tool)
        } else if str_equal(id, "backpack") {
            Some(UiElement::Backpack)
        } else if str_equal(id, "carry") {
            Some(UiElement::Carry)
        } else if str_equal(id, "mine progress") {
            Some(UiElement::MineProgress)
        } else {
            None
        }
    }
}

/// The text a display element shows for an inventory: the money with a
/// dollar sign, the tool's and the backpack's names, the load as
/// "carried/capacity Kg"; the progress bar shows no text.
pub open spec fn hud_text(element: UiElement, inv: Inventory) -> Option<Seq<char>> {
    match element {
        UiElement::Money => Some(decimal(inv.money as int) + "$"@),
        UiElement::Tool => Some(inv.tool.name@),
        UiElement::Backpack => Some(inv.backpack.name@),
        UiElement::Carry => Some(
            decimal(inv.carrying as int) + "/"@ + decimal(inv.backpack.capacity as int) + " Kg"@,
        ),
        UiElement::MineProgress => None,
    }
}

/// The display id of each element.
pub open spec fn display_id(e: UiElement) -> Seq<char> {
    match e {
        UiElement::Money => "money"@,
        UiElement::Tool => "tool"@,
        UiElement::Backpack => "backpack"@,
        UiElement::Carry => "carry"@,
        UiElement::MineProgress => "mine progress"@,
    }
}

/// An id names an element exactly when it is that element's display id:
/// every element is found by its own id, and every other id (such as the
/// shop's texts) names no element.
pub proof fn display_ids_name_their_elements(id: Seq<char>, e: UiElement)
    ensures
        ui_element_named(id) == Some(e) <==> id == display_id(e),
        ui_element_named(display_id(e)) == Some(e),
{
    reveal_strlit("money");
    reveal_strlit("tool");
    reveal_strlit("backpack");
    reveal_strlit("carry");
    reveal_strlit("mine progress");
    assert("money"@[0] == 'm' && "tool"@[0] == 't' && "backpack"@[0] == 'b' && "carry"@[0] == 'c'
        && "mine progress"@[0] == 'm');
    assert("money"@[1] == 'o' && "mine progress"@[1] == 'i');
    assert("money"@ != "tool"@ && "money"@ != "backpack"@ && "money"@ != "carry"@);
    assert("money"@ != "mine progress"@);
    assert("tool"@ != "backpack"@ && "tool"@ != "carry"@ && "tool"@ != "mine progress"@);
    assert("backpack"@ != "carry"@ && "backpack"@ != "mine progress"@);
    assert("carry"@ != "mine progress"@);
}

/// The display shows the inventory as it is: the money as a numeral that
/// reads back as the money, followed by '$'; the load as a numeral that reads
/// back as the blocks carried, a '/', a numeral that reads back as the
/// backpack's capacity, and " Kg"; the tool's and backpack's own names; and
/// no text on the progress bar.
pub proof fn hud_texts_show_inventory(inv: Inventory)
    ensures
        exists|a: Seq<char>|
            hud_text(UiElement::Money, inv) == Some(a + "$"@) && is_numeral(a) && numeral_value(a)
                == inv.money,
        exists|a: Seq<char>, b: Seq<char>|
            hud_text(UiElement::Carry, inv) == Some(a + "/"@ + b + " Kg"@) && is_numeral(a)
                && is_numeral(b) && numeral_value(a) == inv.carrying && numeral_value(b)
                == inv.backpack.capacity,
        hud_text(UiElement::Tool, inv) == Some(inv.tool.name@),
        hud_text(UiElement::Backpack, inv) == Some(inv.backpack.name@),
        hud_text(UiElement::MineProgress, inv) is None,
{
    decimal_reads_back(inv.money as int);
    decimal_reads_back(inv.carrying as int);
    decimal_reads_back(inv.backpack.capacity as int);
    let m = decimal(inv.money as int);
    assert(hud_text(UiElement::Money, inv) == Some(m + "$"@));
    let a = decimal(inv.carrying as int);
    let b = decimal(inv.backpack.capacity as int);
    assert(hud_text(UiElement::Carry, inv) == Some(a + "/"@ + b + " Kg"@));
}

/// The full width of the mining progress bar, in pixels.
pub const PROGRESS_BAR_WIDTH: u32 = 500;

/// Keeps the heads-up display in step with the inventory.
pub struct UiUpdaterSystem;

impl UiUpdaterSystem {
    /// The width of the mining progress bar, in millionths of a pixel: the
    /// progress's share of the full bar width.
    pub fn progress_bar_width(&self, progress: &MineProgress) -> (w: u64)
        ensures
            w == progress.progress * PROGRESS_BAR_WIDTH,
    {
        (progress.progress as u64) * (PROGRESS_BAR_WIDTH as u64)
    }

    /// The new text of the display element with id `id`, or `None` where the
    /// element is not a text that follows the inventory.
    pub fn text_for(&self, id: &str, inventory: &Inventory) -> (r: Option<String>)
        ensures
            match ui_element_named(id@) {
                Some(e) => match hud_text(e, *inventory) {
                    Some(t) => r is Some && r->0@ == t,
                    None => r is None,
                },
                None => r is None,
            },
    {
        match UiElement::from_id(id) {
            Some(UiElement::Money) => {
                let mut s = String::new();
                append_decimal(&mut s, inventory.money);
                s.append("$");
                Some(s)
            },
            Some(UiElement::Tool) => Some(inventory.tool.name.clone()),
            Some(UiElement::Backpack) => Some(inventory.backpack.name.clone()),
            Some(UiElement::Carry) => {
                let mut s = String::new();
                append_decimal(&mut s, inventory.carrying);
                s.append("/");
                append_decimal(&mut s, inventory.backpack.capacity);
                s.append(" Kg");
                Some(s)
            },
            Some(UiElement::MineProgress) => None,
            None => None,
        }
    }
}

} // verus!
