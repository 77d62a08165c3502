//! A price level increment composite: a price level plus one
//! update-action byte. The nested price level codec borrows this frame's
//! position rather than owning its own buffer, and hands it back through
//! `parent` when done.
use crate::Reader;
use crate::SbeErr;
use crate::SbeResult;
use crate::Writer;
use crate::price_level_codec::PriceLevelDecoder;
use crate::price_level_codec::PriceLevelEncoder;
use crate::spec_get_post;
use crate::spec_put_post;
use crate::spec_reclaim;
use crate::update_action::UpdateAction;
use vstd::prelude::*;

verus! {

/// Byte size of the price level increment composite.
pub const ENCODED_LENGTH: usize = 29;

/// Writes a price level increment inside the enclosing frame; it borrows
/// that frame and must hand it back through `parent`.
pub struct PriceLevelIncrementEncoder<P> {
    pub parent: Option<P>,
    pub offset: usize,
}

impl<P: Writer> Writer for PriceLevelIncrementEncoder<P> {
    open spec fn writer_ready(&self) -> bool {
        match self.parent {
            Some(p) => p.writer_ready(),
            None => false,
        }
    }

    open spec fn wbytes(&self) -> Seq<u8> {
        match self.parent {
            Some(p) => p.wbytes(),
            None => Seq::empty(),
        }
    }

    open spec fn wstart(&self) -> int {
        match self.parent {
            Some(p) => p.wstart(),
            None => 0,
        }
    }

    open spec fn wlimit(&self) -> int {
        match self.parent {
            Some(p) => p.wlimit(),
            None => 0,
        }
    }

    fn put_u8_at(&mut self, index: usize, value: u8) -> (r: SbeResult<()>) {
        match &mut self.parent {
            Some(p) => p.put_u8_at(index, value),
            None => Err(SbeErr::ParentNotSet),
        }
    }

    fn put_u16_at(&mut self, index: usize, value: u16) -> (r: SbeResult<()>) {
        match &mut self.parent {
            Some(p) => p.put_u16_at(index, value),
            None => Err(SbeErr::ParentNotSet),
        }
    }

    fn put_u32_at(&mut self, index: usize, value: u32) -> (r: SbeResult<()>) {
        match &mut self.parent {
            Some(p) => p.put_u32_at(index, value),
            None => Err(SbeErr::ParentNotSet),
        }
    }

    fn put_u64_at(&mut self, index: usize, value: u64) -> (r: SbeResult<()>) {
        match &mut self.parent {
            Some(p) => p.put_u64_at(index, value),
            None => Err(SbeErr::ParentNotSet),
        }
    }

    fn put_i64_at(&mut self, index: usize, value: i64) -> (r: SbeResult<()>) {
        match &mut self.parent {
            Some(p) => p.put_i64_at(index, value),
            None => Err(SbeErr::ParentNotSet),
        }
    }
}

impl<P: Writer> PriceLevelIncrementEncoder<P> {
    pub fn wrap(self, parent: P, offset: usize) -> (r: Self)
        ensures
            r.parent == Some(parent),
            r.offset == offset,
    {
        PriceLevelIncrementEncoder { parent: Some(parent), offset }
    }

    /// Hand the enclosing frame back; single-use.
    pub fn parent(&mut self) -> (r: SbeResult<P>)
        ensures
            final(self).offset == old(self).offset,
            (final(self).parent, r) == spec_reclaim(old(self).parent),
    {
        match self.parent.take() {
            Some(p) => Ok(p),
            None => Err(SbeErr::ParentNotSet),
        }
    }

    /// The nested price level, borrowing this frame's position.
    pub fn price_level_encoder(self) -> (r: PriceLevelEncoder<Self>)
        ensures
            r.parent == Some(self),
            r.offset == self.offset,
    {
        let offset = self.offset;
        PriceLevelEncoder { parent: None, offset: 0 }.wrap(self, offset)
    }

    pub fn update_action(&mut self, value: UpdateAction) -> (r: SbeResult<()>)
        requires
            old(self).offset + ENCODED_LENGTH <= usize::MAX,
        ensures
            final(self).offset == old(self).offset,
            final(self).writer_ready() == old(self).writer_ready(),
            final(self).wstart() == old(self).wstart(),
            final(self).wlimit() == old(self).wlimit(),
            spec_put_post(
                old(self).writer_ready(), old(self).wbytes(), final(self).wbytes(),
                old(self).offset + 28, seq![value.spec_to_raw()], r),
    {
        let index = self.offset + 28;
        let b = value.to_raw();
        match &mut self.parent {
            Some(p) => p.put_u8_at(index, b),
            None => Err(SbeErr::ParentNotSet),
        }
    }
}

/// Reads a price level increment. The acting block length is the element
/// size the wire's dimension header declared; fields it ends before are
/// absent.
pub struct PriceLevelIncrementDecoder<P> {
    pub parent: Option<P>,
    pub offset: usize,
    pub acting_block_length: usize,
}

impl<P: Reader> Reader for PriceLevelIncrementDecoder<P> {
    open spec fn reader_ready(&self) -> bool {
        match self.parent {
            Some(p) => p.reader_ready(),
            None => false,
        }
    }

    open spec fn rbytes(&self) -> Seq<u8> {
        match self.parent {
            Some(p) => p.rbytes(),
            None => Seq::empty(),
        }
    }

    open spec fn rstart(&self) -> int {
        match self.parent {
            Some(p) => p.rstart(),
            None => 0,
        }
    }

    open spec fn rlimit(&self) -> int {
        match self.parent {
            Some(p) => p.rlimit(),
            None => 0,
        }
    }

    fn get_u8_at(&self, index: usize) -> (r: SbeResult<u8>) {
        match &self.parent {
            Some(p) => p.get_u8_at(index),
            None => Err(SbeErr::ParentNotSet),
        }
    }

    fn get_u16_at(&self, index: usize) -> (r: SbeResult<u16>) {
        match &self.parent {
            Some(p) => p.get_u16_at(index),
            None => Err(SbeErr::ParentNotSet),
        }
    }

    fn get_u32_at(&self, index: usize) -> (r: SbeResult<u32>) {
        match &self.parent {
            Some(p) => p.get_u32_at(index),
            None => Err(SbeErr::ParentNotSet),
        }
    }

    fn get_u64_at(&self, index: usize) -> (r: SbeResult<u64>) {
        match &self.parent {
            Some(p) => p.get_u64_at(index),
            None => Err(SbeErr::ParentNotSet),
        }
    }

    fn get_i64_at(&self, index: usize) -> (r: SbeResult<i64>) {
        match &self.parent {
            Some(p) => p.get_i64_at(index),
            None => Err(SbeErr::ParentNotSet),
        }
    }
}

impl<P: Reader> PriceLevelIncrementDecoder<P> {
    pub fn wrap(self, parent: P, offset: usize, acting_block_length: usize) -> (r: Self)
        ensures
            r.parent == Some(parent),
            r.offset == offset,
            r.acting_block_length == acting_block_length,
    {
        PriceLevelIncrementDecoder { parent: Some(parent), offset, acting_block_length }
    }

    /// Hand the enclosing frame back; single-use.
    pub fn parent(&mut self) -> (r: SbeResult<P>)
        ensures
            final(self).offset == old(self).offset,
            final(self).acting_block_length == old(self).acting_block_length,
            (final(self).parent, r) == spec_reclaim(old(self).parent),
    {
        match self.parent.take() {
            Some(p) => Ok(p),
            None => Err(SbeErr::ParentNotSet),
        }
    }

    /// The nested price level, borrowing this frame's position and
    /// governed by the same acting block length.
    pub fn price_level_decoder(self) -> (r: PriceLevelDecoder<Self>)
        ensures
            r.parent == Some(self),
            r.offset == self.offset,
            r.acting_block_length == self.acting_block_length,
    {
        let offset = self.offset;
        let acting_block_length = self.acting_block_length;
        PriceLevelDecoder { parent: None, offset: 0, acting_block_length: 0 }.wrap(
            self, offset, acting_block_length)
    }

    /// A byte outside the defined set decodes to the null variant, and a
    /// field the acting block ends before is absent: the null variant is
    /// returned without reading.
    pub fn update_action(&self) -> (r: SbeResult<UpdateAction>)
        requires
            self.offset + ENCODED_LENGTH <= usize::MAX,
        ensures
            self.acting_block_length >= 29 ==> spec_get_post(
                self.reader_ready(), self.rbytes(), self.offset + 28, 1, r,
                UpdateAction::spec_from_raw(self.rbytes()[self.offset + 28])),
            self.acting_block_length < 29 ==> r == Ok::<UpdateAction, SbeErr>(
                UpdateAction::NullVal),
    {
        if self.acting_block_length < 29 {
            return Ok(UpdateAction::NullVal);
        }
        let index = self.offset + 28;
        let b = match &self.parent {
            Some(p) => p.get_u8_at(index),
            None => Err(SbeErr::ParentNotSet),
        };
        match b {
            Ok(v) => Ok(UpdateAction::from_raw(v)),
            Err(e) => Err(e),
        }
    }
}


impl<P: Writer> Default for PriceLevelIncrementEncoder<P> {
    fn default() -> (r: Self)
        ensures
            r.parent is None,
            r.offset == 0,
    {
        PriceLevelIncrementEncoder { parent: None, offset: 0 }
    }
}

impl<P: Reader> Default for PriceLevelIncrementDecoder<P> {
    fn default() -> (r: Self)
        ensures
            r.parent is None,
            r.offset == 0,
            r.acting_block_length == 0,
    {
        PriceLevelIncrementDecoder { parent: None, offset: 0, acting_block_length: 0 }
    }
}

} // verus!
