//! A concrete record type whose transformation implementations are written
//! out by hand in exactly the shape the generator synthesizes: one recursive
//! transformation per field, reassembled field for field.

use vstd::prelude::*;
use crate::cows::CoCow;
use crate::makeowned::MakeOwned;
use crate::shallowclone::ShallowClone;

verus! {

/// A display-only description of an entity shown on hover: its type
/// identifier, its textual id, and an optional custom name.
#[derive(Debug, Clone)]
pub struct HoverActionShowEntity<'a> {
    /// The textual identifier of the entity's type.
    pub entity_type: CoCow<'a, String>,
    /// The entity's textual id; only for display.
    pub id: CoCow<'a, String>,
    /// The entity's custom name.
    pub name: Option<CoCow<'a, String>>,
}

impl<'a> ShallowClone<'a> for HoverActionShowEntity<'a> {
    type Target = HoverActionShowEntity<'a>;

    open spec fn shallow_rel(&'a self, t: &HoverActionShowEntity<'a>) -> bool {
        &&& self.entity_type.shallow_rel(&t.entity_type)
        &&& self.id.shallow_rel(&t.id)
        &&& self.name.shallow_rel(&t.name)
    }

    fn shallow_clone(&'a self) -> (t: HoverActionShowEntity<'a>) {
        HoverActionShowEntity {
            entity_type: self.entity_type.shallow_clone(),
            id: self.id.shallow_clone(),
            name: self.name.shallow_clone(),
        }
    }
}

impl<'a> MakeOwned for HoverActionShowEntity<'a> {
    type Owned = HoverActionShowEntity<'static>;

    open spec fn owned_rel(self, o: HoverActionShowEntity<'static>) -> bool {
        &&& self.entity_type.owned_rel(o.entity_type)
        &&& self.id.owned_rel(o.id)
        &&& self.name.owned_rel(o.name)
    }

    fn make_owned(self) -> (o: HoverActionShowEntity<'static>) {
        HoverActionShowEntity {
            entity_type: self.entity_type.make_owned(),
            id: self.id.make_owned(),
            name: self.name.make_owned(),
        }
    }
}

} // verus!
