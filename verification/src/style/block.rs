//! Declaration blocks: one slot for every property of the catalogue.

use vstd::prelude::*;
use super::schema::{
    find_property, lemma_property_index, name_of, property_index, property_kinds, property_name,
    syntax_of, Syntax, PROPERTY_COUNT,
};
use super::text::{append_spaced, lemma_spaced_empty, spaced};
use super::value::{Input, Kind, Value};
use super::{CssField, IntoCss};

verus! {

/// The fields of one property: one field for a plain property, one for
/// each position of a shorthand.
pub type Group = Seq<CssField<Value>>;

/// Why a declaration was turned down.
#[derive(Clone, Copy, Debug, PartialEq, Eq, Structural)]
pub enum CssError {
    /// The catalogue has no property of that name.
    Schema,
    /// No value was given, or more values than the property has slots.
    Arity,
    /// A value cannot be read as the kind that its slot takes.
    Coercion,
}

/// A field fits a slot of a kind when its explicit value, if it has
/// one, is of that kind and has a text.
pub open spec fn field_fits(field: CssField<Value>, kind: Kind) -> bool {
    match field {
        CssField::Explicit(value) => value.kind() == kind && value.renderable(),
        _ => true,
    }
}

/// A group fits a row of kinds when it has one fitting field for each.
pub open spec fn group_fits(group: Group, kinds: Seq<Kind>) -> bool {
    &&& group.len() == kinds.len()
    &&& forall|j: int| 0 <= j < group.len() ==> field_fits(#[trigger] group[j], kinds[j])
}

/// The slots hold one fitting group for each property of the catalogue.
pub open spec fn slots_fit(slots: Seq<Group>) -> bool {
    &&& slots.len() == PROPERTY_COUNT
    &&& forall|i: int|
        0 <= i < PROPERTY_COUNT ==> group_fits(#[trigger] slots[i], property_kinds(i))
}

/// Whether nothing is declared in a group.
pub open spec fn all_unset(group: Group) -> bool {
    forall|j: int| 0 <= j < group.len() ==> #[trigger] group[j] is Unset
}

/// Field by field, the override merge of two groups.
pub open spec fn merged_group(ours: Group, theirs: Group) -> Group {
    Seq::new(ours.len(), |j: int| ours[j].merged(theirs[j]))
}

/// Slot by slot, the override merge of the groups.
pub open spec fn merged_slots(ours: Seq<Group>, theirs: Seq<Group>) -> Seq<Group> {
    Seq::new(ours.len(), |i: int| merged_group(ours[i], theirs[i]))
}

/// The text of a group: the texts of its fields in order, with single
/// spaces between them; an unset field takes no room.
pub open spec fn group_css(group: Group) -> Seq<char> {
    spaced(group.map_values(|field: CssField<Value>| field.css()))
}

/// The declaration of one property: nothing where nothing is declared,
/// else the name, a colon, the text of the group and a semicolon.
pub open spec fn declaration(index: int, group: Group) -> Seq<char> {
    if all_unset(group) {
        Seq::empty()
    } else {
        property_name(index) + ": "@ + group_css(group) + ";"@
    }
}

/// The declarations of the first `count` properties, in the order of
/// the catalogue.
pub open spec fn declarations(slots: Seq<Group>, count: nat) -> Seq<char>
    decreases count,
{
    if count == 0 {
        Seq::empty()
    } else {
        declarations(slots, (count - 1) as nat) + declaration(count - 1, slots[count - 1])
    }
}

impl<T: IntoCss + Clone> Clone for CssField<T> {
    fn clone(&self) -> (copy: Self)
        ensures
            match (*self, copy) {
                (CssField::Unset, CssField::Unset) => true,
                (CssField::Explicit(ours), CssField::Explicit(theirs)) => cloned(ours, theirs),
                (CssField::Initial, CssField::Initial) => true,
                (CssField::Inherit, CssField::Inherit) => true,
                _ => false,
            },
    {
        match self {
            CssField::Unset => CssField::Unset,
            CssField::Explicit(value) => CssField::Explicit(value.clone()),
            CssField::Initial => CssField::Initial,
            CssField::Inherit => CssField::Inherit,
        }
    }
}

/// A copy of a field of a block.
fn copy_field(field: &CssField<Value>) -> (copy: CssField<Value>)
    ensures
        copy == *field,
{
    field.clone()
}

/// A copy of a group of a block.
fn copy_group(group: &Vec<CssField<Value>>) -> (copy: Vec<CssField<Value>>)
    ensures
        copy@ == group@,
{
    let mut copy: Vec<CssField<Value>> = Vec::new();
    let mut j: usize = 0;
    while j < group.len()
        invariant
            j <= group.len(),
            copy.len() == j,
            forall|k: int| 0 <= k < j ==> copy[k] == group[k],
        decreases group.len() - j,
    {
        copy.push(copy_field(&group[j]));
        j = j + 1;
    }
    assert(copy@ =~= group@);
    copy
}

/// Merges two groups of the same length, field by field.
fn merge_groups(ours: &Vec<CssField<Value>>, theirs: &Vec<CssField<Value>>) -> (merged: Vec<
    CssField<Value>,
>)
    requires
        ours.len() == theirs.len(),
    ensures
        merged@ == merged_group(ours@, theirs@),
{
    let mut merged: Vec<CssField<Value>> = Vec::new();
    let mut j: usize = 0;
    while j < ours.len()
        invariant
            j <= ours.len() == theirs.len(),
            merged.len() == j,
            forall|k: int| 0 <= k < j ==> merged[k] == ours[k].merged(theirs[k]),
        decreases ours.len() - j,
    {
        merged.push(copy_field(&ours[j]).or(copy_field(&theirs[j])));
        j = j + 1;
    }
    assert(merged@ =~= merged_group(ours@, theirs@));
    merged
}

/// The field that one slot gets from a row of inputs: the input at its
/// position, read as the slot's kind; unset where the inputs end.
pub open spec fn declared_field(kind: Kind, inputs: Seq<Input>, slot: int) -> CssField<Value> {
    if slot < inputs.len() {
        match inputs[slot].coerced(kind) {
            Some(value) => CssField::Explicit(value),
            None => CssField::Unset,
        }
    } else {
        CssField::Unset
    }
}

/// The group that a row of inputs makes for a row of kinds.
pub open spec fn declared_group(kinds: Seq<Kind>, inputs: Seq<Input>) -> Group {
    Seq::new(kinds.len(), |j: int| declared_field(kinds[j], inputs, j))
}

/// Whether every input can be read as the kind of its slot.
pub open spec fn coercible(kinds: Seq<Kind>, inputs: Seq<Input>) -> bool {
    forall|j: int| 0 <= j < inputs.len() ==> (#[trigger] inputs[j]).coerced(kinds[j]) is Some
}

/// Why a row of inputs makes no group for a row of kinds, if it makes
/// none: there must be at least one input and no more than there are
/// kinds, and every input must be readable as the kind of its slot.
pub open spec fn group_error(kinds: Seq<Kind>, inputs: Seq<Input>) -> Option<CssError> {
    if inputs.len() == 0 || inputs.len() > kinds.len() {
        Some(CssError::Arity)
    } else if !coercible(kinds, inputs) {
        Some(CssError::Coercion)
    } else {
        None
    }
}

/// Why a declaration is turned down, if it is: the name must be in the
/// catalogue and the inputs must make a group for the property.
pub open spec fn declare_error(name: Seq<char>, inputs: Seq<Input>) -> Option<CssError> {
    match property_index(name) {
        None => Some(CssError::Schema),
        Some(index) => group_error(property_kinds(index), inputs),
    }
}

/// The slots after a declaration: the slot of the property holds the
/// group made from the inputs, whatever it held before; a declaration
/// that is turned down changes nothing.
pub open spec fn declared(slots: Seq<Group>, name: Seq<char>, inputs: Seq<Input>) -> Seq<Group> {
    match property_index(name) {
        Some(index) if declare_error(name, inputs) is None => slots.update(
            index,
            declared_group(property_kinds(index), inputs),
        ),
        _ => slots,
    }
}

/// Why a field is not put at a position of a property's group, if it is
/// not.
pub open spec fn set_field_error(name: Seq<char>, position: int, field: CssField<Value>) -> Option<
    CssError,
> {
    match property_index(name) {
        None => Some(CssError::Schema),
        Some(index) => if position < 0 || position >= property_kinds(index).len() {
            Some(CssError::Arity)
        } else if !field_fits(field, property_kinds(index)[position]) {
            Some(CssError::Coercion)
        } else {
            None
        },
    }
}

/// The slots after a field is put at a position of a property's group;
/// a field that is turned down changes nothing.
pub open spec fn with_field(
    slots: Seq<Group>,
    name: Seq<char>,
    position: int,
    field: CssField<Value>,
) -> Seq<Group> {
    match property_index(name) {
        Some(index) if set_field_error(name, position, field) is None => slots.update(
            index,
            slots[index].update(position, field),
        ),
        _ => slots,
    }
}

/// Makes the group of a property from one to four inputs: each input is
/// read as the kind of its slot, and the slots after the last input stay
/// unset.
pub fn assemble(syntax: Syntax, inputs: &[Input]) -> (outcome: Result<
    Vec<CssField<Value>>,
    CssError,
>)
    ensures
        match group_error(syntax.kinds(), inputs@) {
            Some(error) => outcome == Err::<Vec<CssField<Value>>, CssError>(error),
            None => outcome is Ok && outcome->Ok_0@ == declared_group(syntax.kinds(), inputs@),
        },
{
    let arity = syntax.arity();
    if inputs.len() == 0 || inputs.len() > arity {
        return Err(CssError::Arity);
    }
    let mut group: Vec<CssField<Value>> = Vec::new();
    let mut j: usize = 0;
    while j < arity
        invariant
            j <= arity == syntax.kinds().len(),
            0 < inputs.len() <= arity,
            group.len() == j,
            forall|k: int|
                0 <= k < j ==> #[trigger] group[k] == declared_field(
                    syntax.kinds()[k],
                    inputs@,
                    k,
                ),
            forall|k: int|
                0 <= k < j && k < inputs.len() ==> (#[trigger] inputs[k]).coerced(
                    syntax.kinds()[k],
                ) is Some,
        decreases arity - j,
    {
        if j < inputs.len() {
            match inputs[j].coerce(syntax.kind_at(j)) {
                Some(value) => {
                    group.push(CssField::Explicit(value));
                },
                None => {
                    return Err(CssError::Coercion);
                },
            }
        } else {
            group.push(CssField::Unset);
        }
        j = j + 1;
    }
    assert(group@ =~= declared_group(syntax.kinds(), inputs@));
    Ok(group)
}

/// Whether a field fits a slot of a kind.
pub fn fits_kind(field: &CssField<Value>, kind: Kind) -> (fits: bool)
    ensures
        fits == field_fits(*field, kind),
{
    match field {
        CssField::Explicit(value) => value.kind_of() == kind && value.can_render(),
        _ => true,
    }
}

/// Whether a group fits what a property takes.
pub fn fits_syntax(group: &Vec<CssField<Value>>, syntax: Syntax) -> (fits: bool)
    ensures
        fits == group_fits(group@, syntax.kinds()),
{
    if group.len() != syntax.arity() {
        return false;
    }
    let mut j: usize = 0;
    while j < group.len()
        invariant
            j <= group.len() == syntax.kinds().len(),
            forall|k: int| 0 <= k < j ==> field_fits(#[trigger] group[k], syntax.kinds()[k]),
        decreases group.len() - j,
    {
        if !fits_kind(&group[j], syntax.kind_at(j)) {
            return false;
        }
        j = j + 1;
    }
    true
}

/// The text of a field, without taking the field apart.
pub fn field_text(field: &CssField<Value>) -> (text: String)
    requires
        field.renderable(),
    ensures
        text@ == field.css(),
{
    match field {
        CssField::Unset => String::new(),
        CssField::Inherit => String::from_str("inherit"),
        CssField::Initial => String::from_str("initial"),
        CssField::Explicit(value) => value.render(),
    }
}

/// Writes a group out: the fields that are declared, in order, with
/// single spaces between them.
pub fn render_group(group: &Vec<CssField<Value>>) -> (text: String)
    requires
        forall|j: int| 0 <= j < group.len() ==> (#[trigger] group[j]).renderable(),
    ensures
        text@ == group_css(group@),
{
    let ghost parts = group@.map_values(|field: CssField<Value>| field.css());
    let mut text = String::new();
    let mut j: usize = 0;
    while j < group.len()
        invariant
            j <= group.len(),
            parts == group@.map_values(|field: CssField<Value>| field.css()),
            forall|k: int| 0 <= k < group.len() ==> (#[trigger] group[k]).renderable(),
            text@ == spaced(parts.take(j as int)),
        decreases group.len() - j,
    {
        let part = field_text(&group[j]);
        append_spaced(&mut text, part.as_str());
        proof {
            assert(parts.take(j + 1).drop_last() =~= parts.take(j as int));
            assert(parts.take(j + 1).last() == group[j as int].css());
        }
        j = j + 1;
    }
    assert(parts.take(group.len() as int) =~= parts);
    text
}

/// Whether nothing is declared in a group.
pub fn group_is_unset(group: &Vec<CssField<Value>>) -> (unset: bool)
    ensures
        unset == all_unset(group@),
{
    let mut j: usize = 0;
    while j < group.len()
        invariant
            j <= group.len(),
            forall|k: int| 0 <= k < j ==> #[trigger] group[k] is Unset,
        decreases group.len() - j,
    {
        match &group[j] {
            CssField::Unset => {},
            _ => {
                return false;
            },
        }
        j = j + 1;
    }
    true
}

/// A declaration block: for every property of the catalogue, what is
/// declared for it.
#[derive(Debug)]
pub struct CssBlock {
    slots: Vec<Vec<CssField<Value>>>,
}

impl View for CssBlock {
    type V = Seq<Group>;

    closed spec fn view(&self) -> Seq<Group> {
        Seq::new(self.slots.len() as nat, |i: int| self.slots[i]@)
    }
}

impl CssBlock {
    /// Every slot holds what its property takes.
    pub open spec fn well_formed(&self) -> bool {
        slots_fit(self@)
    }

    /// The block as text: the declarations of all properties, in the
    /// order of the catalogue.
    pub open spec fn css(&self) -> Seq<char> {
        declarations(self@, self@.len())
    }

    /// The block in which nothing is declared.
    pub fn new() -> (block: CssBlock)
        ensures
            block.well_formed(),
            forall|i: int| 0 <= i < PROPERTY_COUNT ==> all_unset(#[trigger] block@[i]),
    {
        let mut slots: Vec<Vec<CssField<Value>>> = Vec::new();
        let mut i: usize = 0;
        while i < PROPERTY_COUNT
            invariant
                i <= PROPERTY_COUNT,
                slots.len() == i,
                forall|k: int|
                    0 <= k < i ==> all_unset((#[trigger] slots[k])@) && slots[k]@.len()
                        == property_kinds(k).len(),
            decreases PROPERTY_COUNT - i,
        {
            let arity = syntax_of(i).arity();
            let mut group: Vec<CssField<Value>> = Vec::new();
            while group.len() < arity
                invariant
                    group.len() <= arity,
                    all_unset(group@),
                decreases arity - group.len(),
            {
                group.push(CssField::Unset);
            }
            slots.push(group);
            i = i + 1;
        }
        let block = CssBlock { slots };
        assert forall|i: int| 0 <= i < PROPERTY_COUNT implies group_fits(
            #[trigger] block@[i],
            property_kinds(i),
        ) && all_unset(block@[i]) by {
            assert(block@[i] == slots[i]@);
        }
        block
    }

    /// Declares a property: the slot of the property named `property`
    /// is overwritten with the group made from `inputs`. A declaration
    /// that is turned down leaves the block as it was.
    pub fn declare(&mut self, property: &str, inputs: &[Input]) -> (outcome: Result<(), CssError>)
        requires
            old(self).well_formed(),
        ensures
            final(self).well_formed(),
            final(self)@ == declared(old(self)@, property@, inputs@),
            match declare_error(property@, inputs@) {
                Some(error) => outcome == Err::<(), CssError>(error),
                None => outcome is Ok,
            },
    {
        proof {
            lemma_property_index(property@);
        }
        let index = match find_property(property) {
            Some(index) => index,
            None => {
                return Err(CssError::Schema);
            },
        };
        let syntax = syntax_of(index);
        match assemble(syntax, inputs) {
            Ok(group) => {
                proof {
                    lemma_declared_group_fits(syntax.kinds(), inputs@);
                }
                let ghost before = self@;
                self.slots.set(index, group);
                assert(self@ =~= before.update(index as int, group@));
                Ok(())
            },
            Err(error) => Err(error),
        }
    }

    /// Whether every slot holds what its property takes. Every block
    /// that this module hands out does.
    pub fn is_well_formed(&self) -> (ok: bool)
        ensures
            ok == self.well_formed(),
    {
        if self.slots.len() != PROPERTY_COUNT {
            return false;
        }
        let mut i: usize = 0;
        while i < PROPERTY_COUNT
            invariant
                i <= PROPERTY_COUNT == self.slots.len(),
                forall|k: int| 0 <= k < i ==> group_fits(#[trigger] self@[k], property_kinds(k)),
            decreases PROPERTY_COUNT - i,
        {
            assert(self@[i as int] == self.slots[i as int]@);
            if !fits_syntax(&self.slots[i], syntax_of(i)) {
                return false;
            }
            i = i + 1;
        }
        true
    }

    /// What is declared for a property, as a copy of its group. There
    /// is none where the catalogue has no property of that name.
    pub fn get(&self, property: &str) -> (group: Option<Vec<CssField<Value>>>)
        requires
            self.well_formed(),
        ensures
            match property_index(property@) {
                Some(index) => group is Some && group->Some_0@ == self@[index],
                None => group is None,
            },
    {
        proof {
            lemma_property_index(property@);
        }
        match find_property(property) {
            Some(index) => {
                assert(self@[index as int] == self.slots[index as int]@);
                Some(copy_group(&self.slots[index]))
            },
            None => None,
        }
    }

    /// Puts one field into the slot of a property, at a position of its
    /// group. This is the way to reset a property or to let it inherit.
    /// The field is turned down, and the block stays as it was, where
    /// the name is unknown (a schema error), the group has no such
    /// position (an arity error) or the field does not fit the kind of
    /// the position (a coercion error).
    pub fn set_field(&mut self, property: &str, position: usize, field: CssField<Value>) -> (outcome:
        Result<(), CssError>)
        requires
            old(self).well_formed(),
        ensures
            final(self).well_formed(),
            final(self)@ == with_field(old(self)@, property@, position as int, field),
            match set_field_error(property@, position as int, field) {
                Some(error) => outcome == Err::<(), CssError>(error),
                None => outcome is Ok,
            },
    {
        proof {
            lemma_property_index(property@);
        }
        let index = match find_property(property) {
            Some(index) => index,
            None => {
                return Err(CssError::Schema);
            },
        };
        let syntax = syntax_of(index);
        if position >= syntax.arity() {
            return Err(CssError::Arity);
        }
        if !fits_kind(&field, syntax.kind_at(position)) {
            return Err(CssError::Coercion);
        }
        let ghost before = self@;
        assert(before[index as int] == self.slots[index as int]@);
        assert(group_fits(before[index as int], property_kinds(index as int)));
        let mut group = copy_group(&self.slots[index]);
        group.set(position, field);
        self.slots.set(index, group);
        assert(self@ =~= before.update(
            index as int,
            before[index as int].update(position as int, field),
        ));
        Ok(())
    }

    /// Writes the block out: for every property for which something
    /// is declared, in the order of the catalogue, the name, a colon,
    /// the value and a semicolon. Nothing stands between declarations.
    pub fn to_string(&self) -> (text: String)
        requires
            self.well_formed(),
        ensures
            text@ == self.css(),
    {
        let mut text = String::new();
        let mut i: usize = 0;
        while i < PROPERTY_COUNT
            invariant
                self.well_formed(),
                self.slots.len() == PROPERTY_COUNT,
                i <= PROPERTY_COUNT,
                text@ == declarations(self@, i as nat),
            decreases PROPERTY_COUNT - i,
        {
            let group = &self.slots[i];
            assert(self@[i as int] == group@);
            assert(group_fits(self@[i as int], property_kinds(i as int)));
            if !group_is_unset(group) {
                let value = render_group(group);
                text.append(name_of(i));
                text.append(": ");
                text.append(value.as_str());
                text.append(";");
            }
            assert(text@ =~= declarations(self@, i as nat) + declaration(i as int, group@));
            i = i + 1;
        }
        text
    }

    /// The override merge of two blocks, as a new block: in every slot
    /// this block's field stays unless it is unset, in which case the
    /// other block's field is taken.
    pub fn with(&self, other: &CssBlock) -> (merged: CssBlock)
        requires
            self.well_formed(),
            other.well_formed(),
        ensures
            merged.well_formed(),
            merged@ == merged_slots(self@, other@),
    {
        let mut slots: Vec<Vec<CssField<Value>>> = Vec::new();
        let mut i: usize = 0;
        while i < self.slots.len()
            invariant
                self.well_formed(),
                other.well_formed(),
                i <= self.slots.len() == other.slots.len(),
                slots.len() == i,
                forall|k: int|
                    0 <= k < i ==> (#[trigger] slots[k])@ == merged_group(self@[k], other@[k]),
            decreases self.slots.len() - i,
        {
            assert(self@[i as int] == self.slots[i as int]@);
            assert(other@[i as int] == other.slots[i as int]@);
            slots.push(merge_groups(&self.slots[i], &other.slots[i]));
            i = i + 1;
        }
        let merged = CssBlock { slots };
        assert(merged@ =~= merged_slots(self@, other@));
        proof {
            lemma_merge_fits(self@, other@);
        }
        merged
    }

    /// The override merge of two blocks, in place.
    pub fn update(&mut self, other: &CssBlock)
        requires
            old(self).well_formed(),
            other.well_formed(),
        ensures
            final(self).well_formed(),
            final(self)@ == merged_slots(old(self)@, other@),
    {
        let merged = self.with(other);
        *self = merged;
    }
}

impl Default for CssBlock {
    /// The block in which nothing is declared.
    fn default() -> (block: Self)
        ensures
            block.well_formed(),
            forall|i: int| 0 <= i < PROPERTY_COUNT ==> all_unset(#[trigger] block@[i]),
    {
        CssBlock::new()
    }
}

impl Clone for CssBlock {
    fn clone(&self) -> (copy: Self)
        ensures
            copy@ == self@,
    {
        let mut slots: Vec<Vec<CssField<Value>>> = Vec::new();
        let mut i: usize = 0;
        while i < self.slots.len()
            invariant
                i <= self.slots.len(),
                slots.len() == i,
                forall|k: int| 0 <= k < i ==> (#[trigger] slots[k])@ == self.slots[k]@,
            decreases self.slots.len() - i,
        {
            slots.push(copy_group(&self.slots[i]));
            i = i + 1;
        }
        let copy = CssBlock { slots };
        assert(copy@ =~= self@);
        copy
    }
}

/// Merging keeps every slot fit for its property: each field of the
/// result is a field of one of the operands, from the same place.
pub proof fn lemma_merge_fits(ours: Seq<Group>, theirs: Seq<Group>)
    requires
        slots_fit(ours),
        slots_fit(theirs),
    ensures
        slots_fit(merged_slots(ours, theirs)),
{
    let merged = merged_slots(ours, theirs);
    assert forall|i: int| 0 <= i < PROPERTY_COUNT implies group_fits(
        #[trigger] merged[i],
        property_kinds(i),
    ) by {
        assert(group_fits(ours[i], property_kinds(i)));
        assert(group_fits(theirs[i], property_kinds(i)));
        assert forall|j: int| 0 <= j < merged[i].len() implies field_fits(
            #[trigger] merged[i][j],
            property_kinds(i)[j],
        ) by {
            assert(field_fits(ours[i][j], property_kinds(i)[j]));
            assert(field_fits(theirs[i][j], property_kinds(i)[j]));
        }
    }
}

/// Block merge is slot-wise: every slot of the merge of two blocks is
/// the merge of their slots, and every field in it is the merge of
/// their fields at that place, with the first block's field on the left.
pub proof fn lemma_merge_slotwise(ours: CssBlock, theirs: CssBlock, slot: int, position: int)
    requires
        ours.well_formed(),
        theirs.well_formed(),
        0 <= slot < PROPERTY_COUNT,
        0 <= position < property_kinds(slot).len(),
    ensures
        merged_slots(ours@, theirs@)[slot] == merged_group(ours@[slot], theirs@[slot]),
        merged_slots(ours@, theirs@)[slot][position] == ours@[slot][position].merged(
            theirs@[slot][position],
        ),
{
    assert(group_fits(ours@[slot], property_kinds(slot)));
    assert(group_fits(theirs@[slot], property_kinds(slot)));
}

/// An unset field of the second block never erases what the first block
/// declares: a field that is set in the first block is the field of the
/// merge.
pub proof fn lemma_merge_keeps_declared(ours: CssBlock, theirs: CssBlock, slot: int, position: int)
    requires
        ours.well_formed(),
        theirs.well_formed(),
        0 <= slot < PROPERTY_COUNT,
        0 <= position < property_kinds(slot).len(),
        !(ours@[slot][position] is Unset),
    ensures
        merged_slots(ours@, theirs@)[slot][position] == ours@[slot][position],
{
    lemma_merge_slotwise(ours, theirs, slot, position);
}

/// Merging with a block in which nothing is declared changes nothing,
/// on either side.
pub proof fn lemma_merge_with_nothing(block: CssBlock, nothing: CssBlock)
    requires
        block.well_formed(),
        nothing.well_formed(),
        forall|i: int| 0 <= i < PROPERTY_COUNT ==> all_unset(#[trigger] nothing@[i]),
    ensures
        merged_slots(block@, nothing@) == block@,
        merged_slots(nothing@, block@) == block@,
{
    let left = merged_slots(block@, nothing@);
    let right = merged_slots(nothing@, block@);
    assert forall|i: int| 0 <= i < PROPERTY_COUNT implies #[trigger] left[i] == block@[i]
        && right[i] == block@[i] by {
        assert(group_fits(block@[i], property_kinds(i)));
        assert(group_fits(nothing@[i], property_kinds(i)));
        assert(all_unset(nothing@[i]));
        assert forall|j: int| 0 <= j < block@[i].len() implies #[trigger] left[i][j]
            == block@[i][j] && right[i][j] == block@[i][j] by {
            assert(nothing@[i][j] is Unset);
        }
        assert(left[i] =~= block@[i]);
        assert(right[i] =~= block@[i]);
    }
    assert(left =~= block@);
    assert(right =~= block@);
}

/// The text of a group in which nothing is declared is empty.
pub proof fn lemma_unset_group_is_empty(group: Group)
    requires
        all_unset(group),
    ensures
        group_css(group) == Seq::<char>::empty(),
{
    let parts = group.map_values(|field: CssField<Value>| field.css());
    assert forall|j: int| 0 <= j < parts.len() implies parts[j].len() == 0 by {
        assert(group[j] is Unset);
    }
    lemma_spaced_empty(parts);
    assert(spaced(parts) =~= Seq::<char>::empty());
}

/// Serialization omits what is unset: a block in which nothing is
/// declared is written as the empty text.
pub proof fn lemma_nothing_declared_is_empty(block: CssBlock)
    requires
        forall|i: int| 0 <= i < block@.len() ==> all_unset(#[trigger] block@[i]),
    ensures
        block.css() == Seq::<char>::empty(),
{
    lemma_no_declarations(block@, block@.len());
}

proof fn lemma_no_declarations(slots: Seq<Group>, count: nat)
    requires
        count <= slots.len(),
        forall|i: int| 0 <= i < slots.len() ==> all_unset(#[trigger] slots[i]),
    ensures
        declarations(slots, count) == Seq::<char>::empty(),
    decreases count,
{
    if count > 0 {
        lemma_no_declarations(slots, (count - 1) as nat);
        assert(all_unset(slots[count - 1]));
        assert(declarations(slots, count) =~= Seq::<char>::empty());
    }
}

/// Shorthand partial fill: the slots after the last input stay unset.
pub proof fn lemma_partial_fill(kinds: Seq<Kind>, inputs: Seq<Input>, slot: int)
    requires
        inputs.len() <= slot < kinds.len(),
    ensures
        declared_group(kinds, inputs)[slot] is Unset,
{
}

/// Shorthand partial fill, as text: a group made from a single input is
/// written as the value of its first slot alone, without any space.
pub proof fn lemma_single_input_text(kinds: Seq<Kind>, input: Input)
    requires
        kinds.len() >= 1,
        input.coerced(kinds[0]) is Some,
    ensures
        group_css(declared_group(kinds, seq![input])) == input.coerced(kinds[0])->Some_0.css(),
{
    let group = declared_group(kinds, seq![input]);
    let parts = group.map_values(|field: CssField<Value>| field.css());
    assert(parts[0] == input.coerced(kinds[0])->Some_0.css());
    lemma_spaced_after_first(parts, parts.len());
    assert(parts.take(parts.len() as int) =~= parts);
}

/// Where every text but the first is empty, the line is the first text.
proof fn lemma_spaced_after_first(parts: Seq<Seq<char>>, count: nat)
    requires
        1 <= count <= parts.len(),
        forall|j: int| 1 <= j < parts.len() ==> (#[trigger] parts[j]).len() == 0,
    ensures
        spaced(parts.take(count as int)) == parts[0],
    decreases count,
{
    let taken = parts.take(count as int);
    if count == 1 {
        assert(taken.drop_last() =~= Seq::<Seq<char>>::empty());
        assert(spaced(taken.drop_last()) =~= Seq::<char>::empty());
        assert(spaced(taken) =~= parts[0]);
    } else {
        lemma_spaced_after_first(parts, (count - 1) as nat);
        assert(taken.drop_last() =~= parts.take(count - 1));
        assert(taken.last() == parts[count - 1]);
    }
}

/// Declaring is overwriting: of two declarations of one property, the
/// later one alone decides what the slot holds.
pub proof fn lemma_redeclare_overwrites(
    block: CssBlock,
    name: Seq<char>,
    earlier: Seq<Input>,
    later: Seq<Input>,
)
    requires
        block.well_formed(),
        declare_error(name, later) is None,
    ensures
        declared(declared(block@, name, earlier), name, later) == declared(block@, name, later),
{
    lemma_property_index(name);
    let index = property_index(name)->Some_0;
    let group = declared_group(property_kinds(index), later);
    assert(declared(block@, name, earlier).update(index, group) =~= block@.update(index, group));
}

/// The order of declarations does not matter: declaring two different
/// properties in either order gives the same block, and so the same
/// text, which follows the order of the catalogue.
pub proof fn lemma_declarations_commute(
    block: CssBlock,
    first: Seq<char>,
    first_inputs: Seq<Input>,
    second: Seq<char>,
    second_inputs: Seq<Input>,
)
    requires
        block.well_formed(),
        property_index(first) != property_index(second),
    ensures
        declared(declared(block@, first, first_inputs), second, second_inputs) == declared(
            declared(block@, second, second_inputs),
            first,
            first_inputs,
        ),
{
    lemma_property_index(first);
    lemma_property_index(second);
    assert(declared(declared(block@, first, first_inputs), second, second_inputs) =~= declared(
        declared(block@, second, second_inputs),
        first,
        first_inputs,
    ));
}

/// A declaration that is accepted leaves every slot fit for its
/// property, and changes no slot but the one of its property.
pub proof fn lemma_declared_fits(slots: Seq<Group>, name: Seq<char>, inputs: Seq<Input>)
    requires
        slots_fit(slots),
    ensures
        slots_fit(declared(slots, name, inputs)),
        forall|i: int|
            0 <= i < PROPERTY_COUNT && property_index(name) != Some(i) ==> declared(
                slots,
                name,
                inputs,
            )[i] == slots[i],
{
    lemma_property_index(name);
    if declare_error(name, inputs) is None {
        let index = property_index(name)->Some_0;
        lemma_declared_group_fits(property_kinds(index), inputs);
    }
}

/// A group made from inputs fits the kinds that it was made for.
pub proof fn lemma_declared_group_fits(kinds: Seq<Kind>, inputs: Seq<Input>)
    ensures
        group_fits(declared_group(kinds, inputs), kinds),
{
    let group = declared_group(kinds, inputs);
    assert forall|j: int| 0 <= j < group.len() implies field_fits(#[trigger] group[j], kinds[j]) by {
        if j < inputs.len() {
            lemma_coerced_fits(inputs[j], kinds[j]);
        }
    }
}

/// A value that an input is read as is of the kind asked for, and has
/// a text.
pub proof fn lemma_coerced_fits(input: Input, kind: Kind)
    ensures
        match input.coerced(kind) {
            Some(value) => value.kind() == kind && value.renderable(),
            None => true,
        },
{
}

} // verus!
