use vstd::arithmetic::div_mod::{lemma_fundamental_div_mod, lemma_mod_bound};
use vstd::arithmetic::mul::{
    lemma_mul_inequality, lemma_mul_is_commutative, lemma_mul_is_distributive_add,
    lemma_mul_nonnegative,
};
use vstd::pervasive::unreached;
use vstd::prelude::*;

verus! {

/// The catalog key of an item kind.
#[derive(Copy, Clone, Debug, PartialEq, Eq, Structural, Hash)]
pub enum ItemId {
    Log,
    Water,
    Boards,
    Chair,
    Dbg,
}

/// The short display code of an item kind.
pub open spec fn item_code(id: ItemId) -> Seq<char> {
    match id {
        ItemId::Log => "LOG"@,
        ItemId::Water => "H2O"@,
        ItemId::Boards => "BRD"@,
        ItemId::Chair => "CHR"@,
        ItemId::Dbg => "DBG"@,
    }
}

/// The display name of an item kind.
pub open spec fn item_name(id: ItemId) -> Seq<char> {
    match id {
        ItemId::Log => "Logs"@,
        ItemId::Water => "Water"@,
        ItemId::Boards => "Boards"@,
        ItemId::Chair => "Chair"@,
        ItemId::Dbg => "Debug"@,
    }
}

/// Weight of one unit of the given item kind.
pub open spec fn unit_weight(id: ItemId) -> u64 {
    match id {
        ItemId::Log => 1_000,
        ItemId::Water => 2_000,
        ItemId::Boards => 1_000,
        ItemId::Chair => 900,
        ItemId::Dbg => 5_100,
    }
}

/// Volume of one unit of the given item kind.
pub open spec fn unit_volume(id: ItemId) -> u64 {
    match id {
        ItemId::Log => 1_000,
        ItemId::Water => 1_500,
        ItemId::Boards => 1_200,
        ItemId::Chair => 3_000,
        ItemId::Dbg => 8_100,
    }
}

/// Every item in the catalog has a strictly positive footprint, so the
/// fittable-quantity divisions below are well defined.
pub proof fn lemma_unit_footprint_positive(id: ItemId)
    ensures
        unit_weight(id) >= 1,
        unit_volume(id) >= 1,
{
    match id {
        ItemId::Log => {},
        ItemId::Water => {},
        ItemId::Boards => {},
        ItemId::Chair => {},
        ItemId::Dbg => {},
    }
}

impl ItemId {
    /// The short display code of this item kind.
    pub fn code(&self) -> (r: &'static str)
        ensures
            r@ == item_code(*self),
    {
        match self {
            ItemId::Log => "LOG",
            ItemId::Water => "H2O",
            ItemId::Boards => "BRD",
            ItemId::Chair => "CHR",
            ItemId::Dbg => "DBG",
        }
    }

    /// Weight of one unit of this item kind.
    pub fn weight(&self) -> (r: u64)
        ensures
            r == unit_weight(*self),
    {
        match self {
            ItemId::Log => 1_000,
            ItemId::Water => 2_000,
            ItemId::Boards => 1_000,
            ItemId::Chair => 900,
            ItemId::Dbg => 5_100,
        }
    }

    /// Volume of one unit of this item kind.
    pub fn volume(&self) -> (r: u64)
        ensures
            r == unit_volume(*self),
    {
        match self {
            ItemId::Log => 1_000,
            ItemId::Water => 1_500,
            ItemId::Boards => 1_200,
            ItemId::Chair => 3_000,
            ItemId::Dbg => 8_100,
        }
    }
}

/// A quantity of one item kind inside a container. A stack with quantity 0
/// never exists in a well-formed container.
#[derive(Copy, Clone, Debug, PartialEq, Eq, Structural)]
pub struct ItemStack {
    pub id: ItemId,
    pub quantity: u64,
}

/// Catalog entry for an item kind: display data and the per-unit footprint.
#[derive(Debug, Clone)]
pub struct ItemDetails {
    pub id: ItemId,
    pub name: String,
    pub category: String,
    pub weight: u64,
    pub volume: u64,
}

impl ItemDetails {
    /// Catalog lookup. The catalog is total over `ItemId`, so this never
    /// fails.
    pub fn get(id: ItemId) -> (r: ItemDetails)
        ensures
            r.id == id,
            r.weight == unit_weight(id),
            r.volume == unit_volume(id),
            r.name@ == item_name(id),
    {
        match id {
            ItemId::Log => ItemDetails {
                id,
                name: String::from_str("Logs"),
                category: String::from_str("Raw Materials"),
                weight: 1_000,
                volume: 1_000,
            },
            ItemId::Water => ItemDetails {
                id,
                name: String::from_str("Water"),
                category: String::from_str("Liquids"),
                weight: 2_000,
                volume: 1_500,
            },
            ItemId::Boards => ItemDetails {
                id,
                name: String::from_str("Boards"),
                category: String::from_str("Processed Materials"),
                weight: 1_000,
                volume: 1_200,
            },
            ItemId::Chair => ItemDetails {
                id,
                name: String::from_str("Chair"),
                category: String::from_str("Carpentry Products"),
                weight: 900,
                volume: 3_000,
            },
            ItemId::Dbg => ItemDetails {
                id,
                name: String::from_str("Debug"),
                category: String::from_str("Backrooms"),
                weight: 5_100,
                volume: 8_100,
            },
        }
    }

    /// Every catalog entry, in catalog order.
    pub fn all() -> (r: Vec<ItemDetails>)
        ensures
            r@.len() == 5,
            r@[0].id == ItemId::Log,
            r@[1].id == ItemId::Water,
            r@[2].id == ItemId::Boards,
            r@[3].id == ItemId::Chair,
            r@[4].id == ItemId::Dbg,
            forall|i: int|
                0 <= i < 5 ==> (#[trigger] r@[i]).weight == unit_weight(r@[i].id) && r@[i].volume
                    == unit_volume(r@[i].id),
    {
        let mut v: Vec<ItemDetails> = Vec::new();
        v.push(ItemDetails::get(ItemId::Log));
        v.push(ItemDetails::get(ItemId::Water));
        v.push(ItemDetails::get(ItemId::Boards));
        v.push(ItemDetails::get(ItemId::Chair));
        v.push(ItemDetails::get(ItemId::Dbg));
        v
    }

    /// The style classes the presentation layer uses for this item.
    pub fn color(&self) -> (r: &'static str)
        ensures
            self.id == ItemId::Log ==> r@ == "bg-yellow-950 text-yellow-100"@,
            self.id == ItemId::Boards ==> r@ == "bg-yellow-600 text-yellow-50"@,
            self.id == ItemId::Chair ==> r@ == "bg-orange-300 text-orange-900"@,
            self.id == ItemId::Water || self.id == ItemId::Dbg ==> r@
                == "bg-blue-100 text-blue-900"@,
    {
        match self.id {
            ItemId::Log => "bg-yellow-950 text-yellow-100",
            ItemId::Boards => "bg-yellow-600 text-yellow-50",
            ItemId::Chair => "bg-orange-300 text-orange-900",
            ItemId::Water => "bg-blue-100 text-blue-900",
            ItemId::Dbg => "bg-blue-100 text-blue-900",
        }
    }
}

/// Identifier of a container, unique per container in practice (it is drawn
/// from a random 128-bit identifier at construction).
#[derive(Debug, Eq)]
pub struct InventoryId(pub String);

impl Clone for InventoryId {
    fn clone(&self) -> (r: InventoryId)
        ensures
            r == *self,
    {
        InventoryId(self.0.clone())
    }
}

impl PartialEq for InventoryId {
    fn eq(&self, other: &InventoryId) -> (r: bool) {
        self.0 == other.0
    }
}

impl vstd::std_specs::cmp::PartialEqSpecImpl for InventoryId {
    open spec fn obeys_eq_spec() -> bool {
        true
    }

    open spec fn eq_spec(&self, other: &InventoryId) -> bool {
        self.0@ == other.0@
    }
}

/// Total weight of a stack list.
pub open spec fn weight_sum(s: Seq<ItemStack>) -> int
    decreases s.len(),
{
    if s.len() == 0 {
        0
    } else {
        unit_weight(s[0].id) * s[0].quantity + weight_sum(s.drop_first())
    }
}

/// Total volume of a stack list.
pub open spec fn volume_sum(s: Seq<ItemStack>) -> int
    decreases s.len(),
{
    if s.len() == 0 {
        0
    } else {
        unit_volume(s[0].id) * s[0].quantity + volume_sum(s.drop_first())
    }
}

/// Total quantity of one item kind held in a stack list.
pub open spec fn qty_of(s: Seq<ItemStack>, id: ItemId) -> int
    decreases s.len(),
{
    if s.len() == 0 {
        0
    } else {
        (if s[0].id == id {
            s[0].quantity as int
        } else {
            0
        }) + qty_of(s.drop_first(), id)
    }
}

pub proof fn lemma_sums_nonneg(s: Seq<ItemStack>)
    ensures
        weight_sum(s) >= 0,
        volume_sum(s) >= 0,
        forall|t: ItemId| #[trigger] qty_of(s, t) >= 0,
    decreases s.len(),
{
    if s.len() > 0 {
        lemma_unit_footprint_positive(s[0].id);
        lemma_mul_nonnegative(unit_weight(s[0].id) as int, s[0].quantity as int);
        lemma_mul_nonnegative(unit_volume(s[0].id) as int, s[0].quantity as int);
        lemma_sums_nonneg(s.drop_first());
        assert forall|t: ItemId| #[trigger] qty_of(s, t) >= 0 by {
            assert(qty_of(s, t) == (if s[0].id == t {
                s[0].quantity as int
            } else {
                0
            }) + qty_of(s.drop_first(), t));
        }
    }
}

pub proof fn lemma_sums_push(s: Seq<ItemStack>, x: ItemStack)
    ensures
        weight_sum(s.push(x)) == weight_sum(s) + unit_weight(x.id) * x.quantity,
        volume_sum(s.push(x)) == volume_sum(s) + unit_volume(x.id) * x.quantity,
        forall|t: ItemId|
            #[trigger] qty_of(s.push(x), t) == qty_of(s, t) + (if x.id == t {
                x.quantity as int
            } else {
                0
            }),
    decreases s.len(),
{
    let p = s.push(x);
    if s.len() == 0 {
        assert(p[0] == x);
        assert(p.drop_first() =~= Seq::<ItemStack>::empty());
        assert(weight_sum(p) == unit_weight(x.id) * x.quantity + weight_sum(p.drop_first()));
        assert(volume_sum(p) == unit_volume(x.id) * x.quantity + volume_sum(p.drop_first()));
        assert forall|t: ItemId|
            #[trigger] qty_of(p, t) == qty_of(s, t) + (if x.id == t {
                x.quantity as int
            } else {
                0
            }) by {
            assert(qty_of(p, t) == (if x.id == t {
                x.quantity as int
            } else {
                0
            }) + qty_of(p.drop_first(), t));
        }
    } else {
        assert(p[0] == s[0]);
        assert(p.drop_first() =~= s.drop_first().push(x));
        lemma_sums_push(s.drop_first(), x);
        assert(weight_sum(p) == unit_weight(s[0].id) * s[0].quantity + weight_sum(
            s.drop_first().push(x),
        ));
        assert(weight_sum(s) == unit_weight(s[0].id) * s[0].quantity + weight_sum(s.drop_first()));
        assert(volume_sum(p) == unit_volume(s[0].id) * s[0].quantity + volume_sum(
            s.drop_first().push(x),
        ));
        assert(volume_sum(s) == unit_volume(s[0].id) * s[0].quantity + volume_sum(s.drop_first()));
        assert forall|t: ItemId|
            #[trigger] qty_of(p, t) == qty_of(s, t) + (if x.id == t {
                x.quantity as int
            } else {
                0
            }) by {
            assert(qty_of(p, t) == (if s[0].id == t {
                s[0].quantity as int
            } else {
                0
            }) + qty_of(s.drop_first().push(x), t));
            assert(qty_of(s, t) == (if s[0].id == t {
                s[0].quantity as int
            } else {
                0
            }) + qty_of(s.drop_first(), t));
        }
    }
}

pub proof fn lemma_sums_update(s: Seq<ItemStack>, i: int, x: ItemStack)
    requires
        0 <= i < s.len(),
    ensures
        weight_sum(s.update(i, x)) == weight_sum(s) - unit_weight(s[i].id) * s[i].quantity
            + unit_weight(x.id) * x.quantity,
        volume_sum(s.update(i, x)) == volume_sum(s) - unit_volume(s[i].id) * s[i].quantity
            + unit_volume(x.id) * x.quantity,
        forall|t: ItemId|
            #[trigger] qty_of(s.update(i, x), t) == qty_of(s, t) - (if s[i].id == t {
                s[i].quantity as int
            } else {
                0
            }) + (if x.id == t {
                x.quantity as int
            } else {
                0
            }),
    decreases s.len(),
{
    let p = s.update(i, x);
    if i == 0 {
        assert(p[0] == x);
        assert(p.drop_first() =~= s.drop_first());
        assert(weight_sum(p) == unit_weight(x.id) * x.quantity + weight_sum(s.drop_first()));
        assert(weight_sum(s) == unit_weight(s[0].id) * s[0].quantity + weight_sum(s.drop_first()));
        assert(volume_sum(p) == unit_volume(x.id) * x.quantity + volume_sum(s.drop_first()));
        assert(volume_sum(s) == unit_volume(s[0].id) * s[0].quantity + volume_sum(s.drop_first()));
        assert forall|t: ItemId|
            #[trigger] qty_of(p, t) == qty_of(s, t) - (if s[i].id == t {
                s[i].quantity as int
            } else {
                0
            }) + (if x.id == t {
                x.quantity as int
            } else {
                0
            }) by {
            assert(qty_of(p, t) == (if x.id == t {
                x.quantity as int
            } else {
                0
            }) + qty_of(s.drop_first(), t));
            assert(qty_of(s, t) == (if s[0].id == t {
                s[0].quantity as int
            } else {
                0
            }) + qty_of(s.drop_first(), t));
        }
    } else {
        assert(p[0] == s[0]);
        assert(p.drop_first() =~= s.drop_first().update(i - 1, x));
        lemma_sums_update(s.drop_first(), i - 1, x);
        assert(weight_sum(p) == unit_weight(s[0].id) * s[0].quantity + weight_sum(
            s.drop_first().update(i - 1, x),
        ));
        assert(weight_sum(s) == unit_weight(s[0].id) * s[0].quantity + weight_sum(s.drop_first()));
        assert(volume_sum(p) == unit_volume(s[0].id) * s[0].quantity + volume_sum(
            s.drop_first().update(i - 1, x),
        ));
        assert(volume_sum(s) == unit_volume(s[0].id) * s[0].quantity + volume_sum(s.drop_first()));
        assert(s.drop_first()[i - 1] == s[i]);
        assert forall|t: ItemId|
            #[trigger] qty_of(p, t) == qty_of(s, t) - (if s[i].id == t {
                s[i].quantity as int
            } else {
                0
            }) + (if x.id == t {
                x.quantity as int
            } else {
                0
            }) by {
            assert(qty_of(p, t) == (if s[0].id == t {
                s[0].quantity as int
            } else {
                0
            }) + qty_of(s.drop_first().update(i - 1, x), t));
            assert(qty_of(s, t) == (if s[0].id == t {
                s[0].quantity as int
            } else {
                0
            }) + qty_of(s.drop_first(), t));
        }
    }
}

pub proof fn lemma_sums_remove(s: Seq<ItemStack>, i: int)
    requires
        0 <= i < s.len(),
    ensures
        weight_sum(s.remove(i)) == weight_sum(s) - unit_weight(s[i].id) * s[i].quantity,
        volume_sum(s.remove(i)) == volume_sum(s) - unit_volume(s[i].id) * s[i].quantity,
        forall|t: ItemId|
            #[trigger] qty_of(s.remove(i), t) == qty_of(s, t) - (if s[i].id == t {
                s[i].quantity as int
            } else {
                0
            }),
    decreases s.len(),
{
    let p = s.remove(i);
    if i == 0 {
        assert(p =~= s.drop_first());
        assert(weight_sum(s) == unit_weight(s[0].id) * s[0].quantity + weight_sum(s.drop_first()));
        assert(volume_sum(s) == unit_volume(s[0].id) * s[0].quantity + volume_sum(s.drop_first()));
        assert forall|t: ItemId|
            #[trigger] qty_of(p, t) == qty_of(s, t) - (if s[i].id == t {
                s[i].quantity as int
            } else {
                0
            }) by {
            assert(qty_of(s, t) == (if s[0].id == t {
                s[0].quantity as int
            } else {
                0
            }) + qty_of(s.drop_first(), t));
        }
    } else {
        assert(p[0] == s[0]);
        assert(p.drop_first() =~= s.drop_first().remove(i - 1));
        lemma_sums_remove(s.drop_first(), i - 1);
        assert(weight_sum(p) == unit_weight(s[0].id) * s[0].quantity + weight_sum(
            s.drop_first().remove(i - 1),
        ));
        assert(weight_sum(s) == unit_weight(s[0].id) * s[0].quantity + weight_sum(s.drop_first()));
        assert(volume_sum(p) == unit_volume(s[0].id) * s[0].quantity + volume_sum(
            s.drop_first().remove(i - 1),
        ));
        assert(volume_sum(s) == unit_volume(s[0].id) * s[0].quantity + volume_sum(s.drop_first()));
        assert(s.drop_first()[i - 1] == s[i]);
        assert forall|t: ItemId|
            #[trigger] qty_of(p, t) == qty_of(s, t) - (if s[i].id == t {
                s[i].quantity as int
            } else {
                0
            }) by {
            assert(qty_of(p, t) == (if s[0].id == t {
                s[0].quantity as int
            } else {
                0
            }) + qty_of(s.drop_first().remove(i - 1), t));
            assert(qty_of(s, t) == (if s[0].id == t {
                s[0].quantity as int
            } else {
                0
            }) + qty_of(s.drop_first(), t));
        }
    }
}

/// Each stack's own footprint and quantity are bounded by the totals.
pub proof fn lemma_elem_bounds(s: Seq<ItemStack>, i: int)
    requires
        0 <= i < s.len(),
    ensures
        unit_weight(s[i].id) * s[i].quantity <= weight_sum(s),
        unit_volume(s[i].id) * s[i].quantity <= volume_sum(s),
        qty_of(s, s[i].id) >= s[i].quantity,
    decreases s.len(),
{
    lemma_sums_nonneg(s.drop_first());
    lemma_unit_footprint_positive(s[0].id);
    lemma_mul_nonnegative(unit_weight(s[0].id) as int, s[0].quantity as int);
    lemma_mul_nonnegative(unit_volume(s[0].id) as int, s[0].quantity as int);
    assert(weight_sum(s) == unit_weight(s[0].id) * s[0].quantity + weight_sum(s.drop_first()));
    assert(volume_sum(s) == unit_volume(s[0].id) * s[0].quantity + volume_sum(s.drop_first()));
    assert(qty_of(s, s[i].id) == (if s[0].id == s[i].id {
        s[0].quantity as int
    } else {
        0
    }) + qty_of(s.drop_first(), s[i].id));
    if i > 0 {
        assert(s.drop_first()[i - 1] == s[i]);
        lemma_elem_bounds(s.drop_first(), i - 1);
        lemma_sums_nonneg(s.drop_first());
    } else {
        lemma_sums_nonneg(s.drop_first());
    }
}

/// In a list with pairwise distinct ids, the quantity held of a stack's id is
/// exactly that stack's quantity.
pub proof fn lemma_qty_unique(s: Seq<ItemStack>, i: int)
    requires
        0 <= i < s.len(),
        forall|j: int| 0 <= j < s.len() && j != i ==> (#[trigger] s[j]).id != s[i].id,
    ensures
        qty_of(s, s[i].id) == s[i].quantity,
    decreases s.len(),
{
    assert(qty_of(s, s[i].id) == (if s[0].id == s[i].id {
        s[0].quantity as int
    } else {
        0
    }) + qty_of(s.drop_first(), s[i].id));
    if i == 0 {
        assert forall|j: int| 0 <= j < s.drop_first().len() implies (#[trigger] s.drop_first()[j]).id
            != s[0].id by {
            assert(s.drop_first()[j] == s[j + 1]);
        }
        lemma_qty_absent(s.drop_first(), s[0].id);
    } else {
        assert(s.drop_first()[i - 1] == s[i]);
        assert forall|j: int|
            0 <= j < s.drop_first().len() && j != i - 1 implies (#[trigger] s.drop_first()[j]).id
            != s.drop_first()[i - 1].id by {
            assert(s.drop_first()[j] == s[j + 1]);
        }
        lemma_qty_unique(s.drop_first(), i - 1);
    }
}

/// An id that no stack carries has quantity 0.
pub proof fn lemma_qty_absent(s: Seq<ItemStack>, t: ItemId)
    requires
        forall|j: int| 0 <= j < s.len() ==> (#[trigger] s[j]).id != t,
    ensures
        qty_of(s, t) == 0,
    decreases s.len(),
{
    if s.len() > 0 {
        assert(qty_of(s, t) == (if s[0].id == t {
            s[0].quantity as int
        } else {
            0
        }) + qty_of(s.drop_first(), t));
        assert forall|j: int| 0 <= j < s.drop_first().len() implies (#[trigger] s.drop_first()[j]).id
            != t by {
            assert(s.drop_first()[j] == s[j + 1]);
        }
        lemma_qty_absent(s.drop_first(), t);
    }
}

/// If `q <= a / b` then `q * b <= a` (for a non-negative dividend and a
/// positive divisor).
proof fn lemma_div_mul_le(a: int, b: int, q: int)
    requires
        b >= 1,
        a >= 0,
        q <= a / b,
    ensures
        q * b <= a,
{
    lemma_fundamental_div_mod(a, b);
    lemma_mod_bound(a, b);
    lemma_mul_inequality(q, a / b, b);
}

/// A per-container store of item stacks, bounded by weight and volume.
///
/// Well-formedness ties the cached `weight`/`volume` to the stack list: they
/// always equal the sums over the stacks, stay within the maxima, no stack is
/// empty, and no item kind appears in two stacks.
#[derive(Debug)]
pub struct Inventory {
    pub id: InventoryId,
    pub name: String,
    pub items: Vec<ItemStack>,
    pub max_volume: u64,
    pub max_weight: u64,
    pub weight: u64,
    pub volume: u64,
}

/// Relies on uuid::Uuid::new_v4 and its display form: a fresh random
/// identifier, rendered as 36 hyphenated lowercase hex characters.
#[verifier::external_body]
fn fresh_inventory_id() -> (r: String)
    ensures
        r@.len() == 36,
{
    uuid::Uuid::new_v4().to_string()
}

impl Inventory {
    pub open spec fn wf(self) -> bool {
        &&& forall|i: int| 0 <= i < self.items@.len() ==> (#[trigger] self.items@[i]).quantity > 0
        &&& forall|i: int, j: int|
            0 <= i < j < self.items@.len() ==> self.items@[i].id != self.items@[j].id
        &&& self.weight == weight_sum(self.items@)
        &&& self.volume == volume_sum(self.items@)
        &&& self.weight <= self.max_weight
        &&& self.volume <= self.max_volume
    }

    /// How many more units of the given item kind still fit, given the
    /// remaining weight and volume budget.
    pub open spec fn spec_fits(self, id: ItemId) -> int {
        spec_min(
            ((self.max_volume - self.volume) as int) / (unit_volume(id) as int),
            ((self.max_weight - self.weight) as int) / (unit_weight(id) as int),
        )
    }

    /// How many units would actually move on `add_item(id, quantity)`.
    pub open spec fn spec_moved(self, id: ItemId, quantity: u64) -> int {
        spec_min(self.spec_fits(id), quantity as int)
    }

    /// A fresh container: a random identifier, no stacks, and the default
    /// weight and volume budget.
    pub fn new() -> (r: Inventory)
        ensures
            r.wf(),
            r.items@.len() == 0,
            r.weight == 0,
            r.volume == 0,
            r.max_weight == 500_000,
            r.max_volume == 500_000,
            r.name@.len() == 0,
            r.id.0@.len() == 36,
    {
        Inventory {
            id: InventoryId(fresh_inventory_id()),
            name: String::new(),
            items: Vec::new(),
            max_volume: 500_000,
            max_weight: 500_000,
            weight: 0,
            volume: 0,
        }
    }

    /// Weight budget still unused.
    pub fn empty_weight(&self) -> (r: u64)
        requires
            self.wf(),
        ensures
            r == self.max_weight - self.weight,
    {
        self.max_weight - self.weight
    }

    /// Volume budget still unused.
    pub fn empty_volume(&self) -> (r: u64)
        requires
            self.wf(),
        ensures
            r == self.max_volume - self.volume,
    {
        self.max_volume - self.volume
    }

    /// The single source of truth for "how much can this container still
    /// hold of item `item_id`": recomputed from current occupancy on every
    /// call.
    pub fn fits_max_items(&self, item_id: ItemId) -> (r: u64)
        requires
            self.wf(),
        ensures
            r == self.spec_fits(item_id),
    {
        let details = ItemDetails::get(item_id);
        proof {
            lemma_unit_footprint_positive(item_id);
        }
        let by_volume = self.empty_volume() / details.volume;
        let by_weight = self.empty_weight() / details.weight;
        if by_volume < by_weight {
            by_volume
        } else {
            by_weight
        }
    }

    /// Index of the stack holding `item_id`, if one exists.
    fn find_stack(&self, item_id: ItemId) -> (r: Option<usize>)
        ensures
            r is Some ==> 0 <= r.unwrap() < self.items@.len() && self.items@[
                r.unwrap() as int
            ].id == item_id,
            r is None ==> forall|j: int|
                0 <= j < self.items@.len() ==> (#[trigger] self.items@[j]).id != item_id,
    {
        let n = self.items.len();
        let mut i: usize = 0;
        while i < n
            invariant
                n == self.items@.len(),
                0 <= i <= n,
                forall|j: int| 0 <= j < i ==> (#[trigger] self.items@[j]).id != item_id,
            decreases n - i,
        {
            if self.items[i].id == item_id {
                return Some(i);
            }
            i = i + 1;
        }
        None
    }

    /// The quantity of `item_id` currently stored (0 when no stack exists).
    pub fn item_quantity(&self, item_id: ItemId) -> (r: u64)
        requires
            self.wf(),
        ensures
            r == qty_of(self.items@, item_id),
    {
        match self.find_stack(item_id) {
            Some(i) => {
                proof {
                    lemma_qty_unique(self.items@, i as int);
                }
                self.items[i].quantity
            },
            None => {
                proof {
                    lemma_qty_absent(self.items@, item_id);
                }
                0
            },
        }
    }

    /// Moves `min(fits_max_items(item_id), quantity)` units in — silently
    /// truncating to remaining capacity rather than failing — updating or
    /// creating the matching stack and the cached weight and volume.
    #[verifier::rlimit(50)]
    pub fn add_item(&mut self, item_id: ItemId, quantity: u64)
        requires
            old(self).wf(),
        ensures
            final(self).wf(),
            final(self).id == old(self).id,
            final(self).name == old(self).name,
            final(self).max_weight == old(self).max_weight,
            final(self).max_volume == old(self).max_volume,
            final(self).weight == old(self).weight + old(self).spec_moved(item_id, quantity)
                * unit_weight(item_id),
            final(self).volume == old(self).volume + old(self).spec_moved(item_id, quantity)
                * unit_volume(item_id),
            qty_of(final(self).items@, item_id) == qty_of(old(self).items@, item_id) + old(
                self,
            ).spec_moved(item_id, quantity),
            forall|t: ItemId|
                t != item_id ==> #[trigger] qty_of(final(self).items@, t) == qty_of(
                    old(self).items@,
                    t,
                ),
    {
        let details = ItemDetails::get(item_id);
        let max_qty_fits = self.fits_max_items(item_id);
        let moved_qty = if max_qty_fits < quantity {
            max_qty_fits
        } else {
            quantity
        };
        proof {
            lemma_unit_footprint_positive(item_id);
            lemma_div_mul_le(
                (self.max_weight - self.weight) as int,
                unit_weight(item_id) as int,
                moved_qty as int,
            );
            lemma_div_mul_le(
                (self.max_volume - self.volume) as int,
                unit_volume(item_id) as int,
                moved_qty as int,
            );
            lemma_mul_nonnegative(moved_qty as int, unit_weight(item_id) as int);
            lemma_mul_nonnegative(moved_qty as int, unit_volume(item_id) as int);
        }
        match self.find_stack(item_id) {
            Some(i) => {
                proof {
                    lemma_elem_bounds(self.items@, i as int);
                    lemma_qty_unique(self.items@, i as int);
                    // quantity + moved still fits in u64: its weight fits the budget
                    lemma_mul_is_distributive_add(
                        unit_weight(item_id) as int,
                        self.items@[i as int].quantity as int,
                        moved_qty as int,
                    );
                    lemma_mul_is_distributive_add(
                        unit_volume(item_id) as int,
                        self.items@[i as int].quantity as int,
                        moved_qty as int,
                    );
                    lemma_mul_inequality(
                        1,
                        unit_weight(item_id) as int,
                        self.items@[i as int].quantity + moved_qty as int,
                    );
                }
                let mut stack = self.items[i];
                proof {
                    assert((stack.quantity + moved_qty) * 1 == stack.quantity + moved_qty as int);
                }
                stack.quantity = stack.quantity + moved_qty;
                let ghost pre = self.items@;
                self.items[i] = stack;
                proof {
                    lemma_sums_update(pre, i as int, stack);
                }
            },
            None => {
                proof {
                    lemma_qty_absent(self.items@, item_id);
                }
                if moved_qty > 0 {
                    let ghost pre = self.items@;
                    self.items.push(ItemStack { id: item_id, quantity: moved_qty });
                    proof {
                        lemma_sums_push(pre, ItemStack { id: item_id, quantity: moved_qty });
                    }
                }
            },
        }
        proof {
            lemma_mul_is_commutative(unit_weight(item_id) as int, moved_qty as int);
            lemma_mul_is_commutative(unit_volume(item_id) as int, moved_qty as int);
        }
        self.volume = self.volume + details.volume * moved_qty;
        self.weight = self.weight + details.weight * moved_qty;
    }

    /// Removes up to `quantity` units of `item_id`, saturating at zero: the
    /// matching stack shrinks by the amount actually removed (and disappears
    /// when it reaches zero), and the cached weight and volume shrink by that
    /// amount's footprint. A matching stack must exist; removing an item the
    /// container does not hold is a caller bug.
    #[verifier::rlimit(50)]
    pub fn remove_item(&mut self, item_id: ItemId, quantity: u64)
        requires
            old(self).wf(),
            qty_of(old(self).items@, item_id) > 0,
        ensures
            final(self).wf(),
            final(self).id == old(self).id,
            final(self).name == old(self).name,
            final(self).max_weight == old(self).max_weight,
            final(self).max_volume == old(self).max_volume,
            final(self).weight == old(self).weight - spec_min(
                quantity as int,
                qty_of(old(self).items@, item_id),
            ) * unit_weight(item_id),
            final(self).volume == old(self).volume - spec_min(
                quantity as int,
                qty_of(old(self).items@, item_id),
            ) * unit_volume(item_id),
            qty_of(final(self).items@, item_id) == qty_of(old(self).items@, item_id) - spec_min(
                quantity as int,
                qty_of(old(self).items@, item_id),
            ),
            forall|t: ItemId|
                t != item_id ==> #[trigger] qty_of(final(self).items@, t) == qty_of(
                    old(self).items@,
                    t,
                ),
    {
        let details = ItemDetails::get(item_id);
        match self.find_stack(item_id) {
            Some(i) => {
                proof {
                    lemma_qty_unique(self.items@, i as int);
                    lemma_elem_bounds(self.items@, i as int);
                    lemma_unit_footprint_positive(item_id);
                }
                let stack = self.items[i];
                let removed = if quantity < stack.quantity {
                    quantity
                } else {
                    stack.quantity
                };
                proof {
                    lemma_mul_inequality(
                        removed as int,
                        stack.quantity as int,
                        unit_weight(item_id) as int,
                    );
                    lemma_mul_inequality(
                        removed as int,
                        stack.quantity as int,
                        unit_volume(item_id) as int,
                    );
                    lemma_mul_nonnegative(removed as int, unit_weight(item_id) as int);
                    lemma_mul_nonnegative(removed as int, unit_volume(item_id) as int);
                }
                let ghost pre = self.items@;
                if removed == stack.quantity {
                    self.items.remove(i);
                    proof {
                        lemma_sums_remove(pre, i as int);
                    }
                } else {
                    let mut new_stack = stack;
                    new_stack.quantity = stack.quantity - removed;
                    self.items[i] = new_stack;
                    proof {
                        lemma_sums_update(pre, i as int, new_stack);
                        lemma_mul_is_distributive_add(
                            unit_weight(item_id) as int,
                            (stack.quantity - removed) as int,
                            removed as int,
                        );
                        lemma_mul_is_distributive_add(
                            unit_volume(item_id) as int,
                            (stack.quantity - removed) as int,
                            removed as int,
                        );
                    }
                }
                self.volume = self.volume - details.volume * removed;
                self.weight = self.weight - details.weight * removed;
                proof {
                    lemma_mul_is_commutative(unit_weight(item_id) as int, removed as int);
                    lemma_mul_is_commutative(unit_volume(item_id) as int, removed as int);
                }
            },
            None => {
                proof {
                    lemma_qty_absent(self.items@, item_id);
                }
                unreached()
            },
        }
    }
}

/// The smaller of two integers.
pub open spec fn spec_min(a: int, b: int) -> int {
    if a < b {
        a
    } else {
        b
    }
}

/// Conservation: in every well-formed container the cached weight and
/// volume equal the sums over the stacks of quantity times the item's unit
/// weight and volume. Every `add_item`/`remove_item` returns a well-formed
/// container, so this holds after any sequence of them.
pub proof fn lemma_inventory_conservation(inv: Inventory)
    requires
        inv.wf(),
    ensures
        inv.weight == weight_sum(inv.items@),
        inv.volume == volume_sum(inv.items@),
{
}

/// Capacity: every well-formed container — in particular, one returned by
/// any `add_item` — stays within its weight and volume maxima.
pub proof fn lemma_inventory_capacity(inv: Inventory)
    requires
        inv.wf(),
    ensures
        inv.weight <= inv.max_weight,
        inv.volume <= inv.max_volume,
{
}

/// No empty stacks: no stack in a well-formed container has quantity zero
/// (quantities are unsigned, so none is negative either).
pub proof fn lemma_no_zero_stacks(inv: Inventory)
    requires
        inv.wf(),
    ensures
        forall|i: int| 0 <= i < inv.items@.len() ==> (#[trigger] inv.items@[i]).quantity > 0,
{
}

} // verus!
