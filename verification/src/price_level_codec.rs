//! A price level composite: level id, price, open quantity and transact
//! time at fixed offsets inside space reserved by the enclosing frame.
//! The price and quantity fields are floating-point on the wire and are
//! not part of this codec.
use crate::Reader;
use crate::SbeErr;
use crate::SbeResult;
use crate::Writer;
use crate::spec_get_post;
use crate::spec_put_post;
use crate::spec_reclaim;
use vstd::prelude::*;

verus! {

/// Byte size of the price level composite.
pub const ENCODED_LENGTH: usize = 28;

/// Writes a price level inside the enclosing frame; it borrows that
/// frame and must hand it back through `parent`.
pub struct PriceLevelEncoder<P> {
    pub parent: Option<P>,
    pub offset: usize,
}

impl<P: Writer> Writer for PriceLevelEncoder<P> {
    open spec fn writer_ready(&self) -> bool {
        match self.parent {
            Some(p) => p.writer_ready(),
            None => false,
        }
    }

    open spec fn wbytes(&self) -> Seq<u8> {
        match self.parent {
            Some(p) => p.wbytes(),
            None => Seq::empty(),
        }
    }

    open spec fn wstart(&self) -> int {
        match self.parent {
            Some(p) => p.wstart(),
            None => 0,
        }
    }

    open spec fn wlimit(&self) -> int {
        match self.parent {
            Some(p) => p.wlimit(),
            None => 0,
        }
    }

    fn put_u8_at(&mut self, index: usize, value: u8) -> (r: SbeResult<()>) {
        match &mut self.parent {
            Some(p) => p.put_u8_at(index, value),
            None => Err(SbeErr::ParentNotSet),
        }
    }

    fn put_u16_at(&mut self, index: usize, value: u16) -> (r: SbeResult<()>) {
        match &mut self.parent {
            Some(p) => p.put_u16_at(index, value),
            None => Err(SbeErr::ParentNotSet),
        }
    }

    fn put_u32_at(&mut self, index: usize, value: u32) -> (r: SbeResult<()>) {
        match &mut self.parent {
            Some(p) => p.put_u32_at(index, value),
            None => Err(SbeErr::ParentNotSet),
        }
    }

    fn put_u64_at(&mut self, index: usize, value: u64) -> (r: SbeResult<()>) {
        match &mut self.parent {
            Some(p) => p.put_u64_at(index, value),
            None => Err(SbeErr::ParentNotSet),
        }
    }

    fn put_i64_at(&mut self, index: usize, value: i64) -> (r: SbeResult<()>) {
        match &mut self.parent {
            Some(p) => p.put_i64_at(index, value),
            None => Err(SbeErr::ParentNotSet),
        }
    }
}

impl<P: Writer> PriceLevelEncoder<P> {
    pub fn wrap(self, parent: P, offset: usize) -> (r: Self)
        ensures
            r.parent == Some(parent),
            r.offset == offset,
    {
        PriceLevelEncoder { parent: Some(parent), offset }
    }

    /// Hand the enclosing frame back; single-use.
    pub fn parent(&mut self) -> (r: SbeResult<P>)
        ensures
            final(self).offset == old(self).offset,
            (final(self).parent, r) == spec_reclaim(old(self).parent),
    {
        match self.parent.take() {
            Some(p) => Ok(p),
            None => Err(SbeErr::ParentNotSet),
        }
    }

    pub fn id(&mut self, value: u32) -> (r: SbeResult<()>)
        requires
            old(self).offset + ENCODED_LENGTH <= usize::MAX,
        ensures
            final(self).offset == old(self).offset,
            final(self).writer_ready() == old(self).writer_ready(),
            final(self).wstart() == old(self).wstart(),
            final(self).wlimit() == old(self).wlimit(),
            spec_put_post(
                old(self).writer_ready(), old(self).wbytes(), final(self).wbytes(),
                old(self).offset as int, vstd::bytes::spec_u32_to_le_bytes(value), r),
    {
        let index = self.offset;
        match &mut self.parent {
            Some(p) => p.put_u32_at(index, value),
            None => Err(SbeErr::ParentNotSet),
        }
    }

    pub fn transact_time(&mut self, value: i64) -> (r: SbeResult<()>)
        requires
            old(self).offset + ENCODED_LENGTH <= usize::MAX,
        ensures
            final(self).offset == old(self).offset,
            final(self).writer_ready() == old(self).writer_ready(),
            final(self).wstart() == old(self).wstart(),
            final(self).wlimit() == old(self).wlimit(),
            spec_put_post(
                old(self).writer_ready(), old(self).wbytes(), final(self).wbytes(),
                old(self).offset + 20, crate::spec_i64_to_le_bytes(value), r),
    {
        let index = self.offset + 20;
        match &mut self.parent {
            Some(p) => p.put_i64_at(index, value),
            None => Err(SbeErr::ParentNotSet),
        }
    }

}

/// Reads a price level. The acting block length is the element size the
/// wire declared; fields it ends before are absent.
pub struct PriceLevelDecoder<P> {
    pub parent: Option<P>,
    pub offset: usize,
    pub acting_block_length: usize,
}

impl<P: Reader> Reader for PriceLevelDecoder<P> {
    open spec fn reader_ready(&self) -> bool {
        match self.parent {
            Some(p) => p.reader_ready(),
            None => false,
        }
    }

    open spec fn rbytes(&self) -> Seq<u8> {
        match self.parent {
            Some(p) => p.rbytes(),
            None => Seq::empty(),
        }
    }

    open spec fn rstart(&self) -> int {
        match self.parent {
            Some(p) => p.rstart(),
            None => 0,
        }
    }

    open spec fn rlimit(&self) -> int {
        match self.parent {
            Some(p) => p.rlimit(),
            None => 0,
        }
    }

    fn get_u8_at(&self, index: usize) -> (r: SbeResult<u8>) {
        match &self.parent {
            Some(p) => p.get_u8_at(index),
            None => Err(SbeErr::ParentNotSet),
        }
    }

    fn get_u16_at(&self, index: usize) -> (r: SbeResult<u16>) {
        match &self.parent {
            Some(p) => p.get_u16_at(index),
            None => Err(SbeErr::ParentNotSet),
        }
    }

    fn get_u32_at(&self, index: usize) -> (r: SbeResult<u32>) {
        match &self.parent {
            Some(p) => p.get_u32_at(index),
            None => Err(SbeErr::ParentNotSet),
        }
    }

    fn get_u64_at(&self, index: usize) -> (r: SbeResult<u64>) {
        match &self.parent {
            Some(p) => p.get_u64_at(index),
            None => Err(SbeErr::ParentNotSet),
        }
    }

    fn get_i64_at(&self, index: usize) -> (r: SbeResult<i64>) {
        match &self.parent {
            Some(p) => p.get_i64_at(index),
            None => Err(SbeErr::ParentNotSet),
        }
    }
}

impl<P: Reader> PriceLevelDecoder<P> {
    pub fn wrap(self, parent: P, offset: usize, acting_block_length: usize) -> (r: Self)
        ensures
            r.parent == Some(parent),
            r.offset == offset,
            r.acting_block_length == acting_block_length,
    {
        PriceLevelDecoder { parent: Some(parent), offset, acting_block_length }
    }

    /// Hand the enclosing frame back; single-use.
    pub fn parent(&mut self) -> (r: SbeResult<P>)
        ensures
            final(self).offset == old(self).offset,
            final(self).acting_block_length == old(self).acting_block_length,
            (final(self).parent, r) == spec_reclaim(old(self).parent),
    {
        match self.parent.take() {
            Some(p) => Ok(p),
            None => Err(SbeErr::ParentNotSet),
        }
    }

    /// Absent when the acting block ends before this field: the null
    /// sentinel is returned without reading.
    pub fn id(&self) -> (r: SbeResult<u32>)
        requires
            self.offset + ENCODED_LENGTH <= usize::MAX,
        ensures
            self.acting_block_length >= 4 ==> spec_get_post(
                self.reader_ready(), self.rbytes(), self.offset as int, 4, r,
                vstd::bytes::spec_u32_from_le_bytes(self.rbytes().subrange(self.offset as int, self.offset + 4))),
            self.acting_block_length < 4 ==> r == Ok::<u32, SbeErr>(u32::MAX),
    {
        if self.acting_block_length < 4 {
            return Ok(u32::MAX);
        }
        let index = self.offset;
        match &self.parent {
            Some(p) => p.get_u32_at(index),
            None => Err(SbeErr::ParentNotSet),
        }
    }

    /// Absent when the acting block ends before this field: the null
    /// sentinel is returned without reading.
    pub fn transact_time(&self) -> (r: SbeResult<i64>)
        requires
            self.offset + ENCODED_LENGTH <= usize::MAX,
        ensures
            self.acting_block_length >= 28 ==> spec_get_post(
                self.reader_ready(), self.rbytes(), self.offset + 20, 8, r,
                crate::spec_i64_from_le_bytes(self.rbytes().subrange(self.offset + 20, self.offset + 28))),
            self.acting_block_length < 28 ==> r == Ok::<i64, SbeErr>(i64::MIN),
    {
        if self.acting_block_length < 28 {
            return Ok(i64::MIN);
        }
        let index = self.offset + 20;
        match &self.parent {
            Some(p) => p.get_i64_at(index),
            None => Err(SbeErr::ParentNotSet),
        }
    }

}


impl<P: Writer> Default for PriceLevelEncoder<P> {
    fn default() -> (r: Self)
        ensures
            r.parent is None,
            r.offset == 0,
    {
        PriceLevelEncoder { parent: None, offset: 0 }
    }
}

impl<P: Reader> Default for PriceLevelDecoder<P> {
    fn default() -> (r: Self)
        ensures
            r.parent is None,
            r.offset == 0,
            r.acting_block_length == 0,
    {
        PriceLevelDecoder { parent: None, offset: 0, acting_block_length: 0 }
    }
}

} // verus!
