//! What holds of the mass properties of a body whatever is merged into them
//! and taken out of them.

use crate::aggregation::{MassProps2, MassProps3};
use crate::rounding::lemma_recip_not_negative;
use vstd::prelude::*;

verus! {

impl MassProps2 {
    /// Merging keeps consistent mass properties consistent.
    pub proof fn lemma_combined_consistent(self, c: MassProps2)
        requires
            self.consistent(),
        ensures
            self.combined(c).consistent(),
    {
    }

    /// Taking out keeps consistent mass properties consistent.
    pub proof fn lemma_decombined_consistent(self, c: MassProps2)
        requires
            self.consistent(),
        ensures
            self.decombined(c).consistent(),
    {
    }
}

impl MassProps3 {
    /// Merging keeps consistent mass properties consistent.
    pub proof fn lemma_combined_consistent(self, c: MassProps3)
        requires
            self.consistent(),
        ensures
            self.combined(c).consistent(),
    {
    }

    /// Taking out keeps consistent mass properties consistent.
    pub proof fn lemma_decombined_consistent(self, c: MassProps3)
        requires
            self.consistent(),
        ensures
            self.decombined(c).consistent(),
    {
    }
}

/// One change to the mass properties of a body in the plane.
pub enum MassChange2 {
    /// A contribution is merged in.
    Merge(MassProps2),
    /// A contribution is taken out.
    Remove(MassProps2),
}

/// One change to the mass properties of a body in space.
pub enum MassChange3 {
    /// A contribution is merged in.
    Merge(MassProps3),
    /// A contribution is taken out.
    Remove(MassProps3),
}

impl MassProps2 {
    /// The properties after one change.
    pub open spec fn after(self, change: MassChange2) -> MassProps2 {
        match change {
            MassChange2::Merge(c) => self.combined(c),
            MassChange2::Remove(c) => self.decombined(c),
        }
    }

    /// The properties after the changes, made in their order.
    pub open spec fn after_all(self, changes: Seq<MassChange2>) -> MassProps2
        decreases changes.len(),
    {
        if changes.len() == 0 {
            self
        } else {
            self.after(changes[0]).after_all(changes.subrange(1, changes.len() as int))
        }
    }

    /// Whatever is merged in and taken out, in whatever order, the mass and
    /// the inverse mass of a body never become negative.
    pub proof fn lemma_never_negative(self, changes: Seq<MassChange2>)
        requires
            self.mass >= 0,
            self.inverse_mass >= 0,
        ensures
            self.after_all(changes).mass >= 0,
            self.after_all(changes).inverse_mass >= 0,
        decreases changes.len(),
    {
        if changes.len() > 0 {
            let next = self.after(changes[0]);
            lemma_recip_not_negative(next.mass);
            next.lemma_never_negative(changes.subrange(1, changes.len() as int));
        }
    }
}

impl MassProps3 {
    /// The properties after one change.
    pub open spec fn after(self, change: MassChange3) -> MassProps3 {
        match change {
            MassChange3::Merge(c) => self.combined(c),
            MassChange3::Remove(c) => self.decombined(c),
        }
    }

    /// The properties after the changes, made in their order.
    pub open spec fn after_all(self, changes: Seq<MassChange3>) -> MassProps3
        decreases changes.len(),
    {
        if changes.len() == 0 {
            self
        } else {
            self.after(changes[0]).after_all(changes.subrange(1, changes.len() as int))
        }
    }

    /// Whatever is merged in and taken out, in whatever order, the mass and
    /// the inverse mass of a body never become negative.
    pub proof fn lemma_never_negative(self, changes: Seq<MassChange3>)
        requires
            self.mass >= 0,
            self.inverse_mass >= 0,
        ensures
            self.after_all(changes).mass >= 0,
            self.after_all(changes).inverse_mass >= 0,
        decreases changes.len(),
    {
        if changes.len() > 0 {
            let next = self.after(changes[0]);
            lemma_recip_not_negative(next.mass);
            next.lemma_never_negative(changes.subrange(1, changes.len() as int));
        }
    }
}

} // verus!
