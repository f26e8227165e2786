use vstd::prelude::*;

use crate::device::{Device, DeviceError};

verus! {

#[derive(Clone, Copy, Debug, PartialEq, Eq, Structural)]
pub enum BusError {
    DeviceIdExists,
}

/// Some device in `devs` answers to `id`.
pub open spec fn has_id<D: Device>(devs: Seq<D::V>, id: u16) -> bool {
    exists|i: int| 0 <= i < devs.len() && D::spec_id(#[trigger] devs[i]) == id
}

/// No two devices in `devs` share an id.
pub open spec fn unique_ids<D: Device>(devs: Seq<D::V>) -> bool {
    forall|i: int, j: int|
        0 <= i < devs.len() && 0 <= j < devs.len() && i != j ==> D::spec_id(#[trigger] devs[i])
            != D::spec_id(#[trigger] devs[j])
}

/// What connecting `dev` answers: a taken id is refused.
pub open spec fn connect_result<D: Device>(devs: Seq<D::V>, dev: D::V) -> Result<(), BusError> {
    if has_id::<D>(devs, D::spec_id(dev)) {
        Err(BusError::DeviceIdExists)
    } else {
        Ok(())
    }
}

/// The devices after connecting `dev`: appended unless its id is taken.
pub open spec fn connect_after<D: Device>(devs: Seq<D::V>, dev: D::V) -> Seq<D::V> {
    if has_id::<D>(devs, D::spec_id(dev)) {
        devs
    } else {
        devs.push(dev)
    }
}

/// Connecting a device keeps the ids unique.
pub proof fn lemma_connect_keeps_unique<D: Device>(devs: Seq<D::V>, dev: D::V)
    requires
        unique_ids::<D>(devs),
    ensures
        unique_ids::<D>(connect_after::<D>(devs, dev)),
{
    if !has_id::<D>(devs, D::spec_id(dev)) {
        let after = devs.push(dev);
        assert forall|i: int, j: int|
            0 <= i < after.len() && 0 <= j < after.len() && i != j implies D::spec_id(
                #[trigger] after[i],
            ) != D::spec_id(#[trigger] after[j]) by {
            if i == devs.len() as int {
                assert(after[j] == devs[j]);
            } else if j == devs.len() as int {
                assert(after[i] == devs[i]);
            } else {
                assert(after[i] == devs[i] && after[j] == devs[j]);
            }
        }
    }
}

/// Registering a second device whose id is that of a device just
/// registered fails, and the registry then holds the first device and
/// nothing more.
pub proof fn lemma_duplicate_id_rejected<D: Device>(devs: Seq<D::V>, first: D::V, second: D::V)
    requires
        !has_id::<D>(devs, D::spec_id(first)),
        D::spec_id(second) == D::spec_id(first),
    ensures
        connect_result::<D>(devs, first) == Ok::<(), BusError>(()),
        connect_after::<D>(devs, first) == devs.push(first),
        connect_result::<D>(connect_after::<D>(devs, first), second) == Err::<(), BusError>(
            BusError::DeviceIdExists,
        ),
        connect_after::<D>(connect_after::<D>(devs, first), second) == devs.push(first),
{
    let after = devs.push(first);
    assert(after[devs.len() as int] == first);
    assert(has_id::<D>(after, D::spec_id(second)));
}

/// The registry: owns the connected devices, no two of which share an id.
pub struct Bus<D: Device> {
    devs: Vec<D>,
}

impl<D: Device> View for Bus<D> {
    type V = Seq<D::V>;

    closed spec fn view(&self) -> Seq<D::V> {
        self.devs@.map_values(|d: D| d@)
    }
}

impl<D: Device> Bus<D> {
    pub open spec fn wf(&self) -> bool {
        unique_ids::<D>(self@)
    }

    pub fn new() -> (r: Self)
        ensures
            r@ == Seq::<D::V>::empty(),
            r.wf(),
    {
        let r = Bus { devs: Vec::new() };
        assert(r@ =~= Seq::<D::V>::empty());
        r
    }

    pub fn len(&self) -> (r: usize)
        ensures
            r == self@.len(),
    {
        self.devs.len()
    }

    /// Where the device with `id` stands, by a scan in order of connection.
    pub fn find(&self, id: u16) -> (r: Option<usize>)
        ensures
            r matches Some(i) ==> i < self@.len() && D::spec_id(self@[i as int]) == id,
            r is None <==> !has_id::<D>(self@, id),
    {
        let mut i: usize = 0;
        while i < self.devs.len()
            invariant
                i <= self@.len(),
                self@.len() == self.devs@.len(),
                forall|j: int| 0 <= j < i ==> D::spec_id(#[trigger] self@[j]) != id,
            decreases self.devs.len() - i,
        {
            assert(self@[i as int] == self.devs@[i as int]@);
            if self.devs[i].header().id() == id {
                return Some(i);
            }
            i += 1;
        }
        None
    }

    /// The device at position `i`.
    pub fn device(&self, i: usize) -> (r: &D)
        requires
            i < self@.len(),
        ensures
            r@ == self@[i as int],
    {
        &self.devs[i]
    }

    /// Connects `dev` unless a device with its id is already connected.
    pub fn connect_dev(&mut self, dev: D) -> (r: Result<(), BusError>)
        requires
            old(self).wf(),
        ensures
            final(self).wf(),
            r == connect_result::<D>(old(self)@, dev@),
            final(self)@ == connect_after::<D>(old(self)@, dev@),
    {
        proof {
            lemma_connect_keeps_unique::<D>(self@, dev@);
        }
        match self.find(dev.header().id()) {
            Some(_) => Err(BusError::DeviceIdExists),
            None => {
                self.devs.push(dev);
                assert(self@ =~= old(self)@.push(dev@));
                Ok(())
            },
        }
    }

    /// Runs the secondary action of the device at position `i`.
    pub fn act_secondary_at(&mut self, i: usize, value: u16, arg: u16) -> (r: Result<(), DeviceError>)
        requires
            old(self).wf(),
            i < old(self)@.len(),
        ensures
            final(self).wf(),
            r == D::spec_secondary(old(self)@[i as int], value, arg),
            final(self)@ == old(self)@.update(
                i as int,
                D::spec_after_secondary(old(self)@[i as int], value, arg),
            ),
    {
        let r = self.devs[i].act_secondary(value, arg);
        assert(self@ =~= old(self)@.update(
            i as int,
            D::spec_after_secondary(old(self)@[i as int], value, arg),
        ));
        r
    }
}

} // verus!
