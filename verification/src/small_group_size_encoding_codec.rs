//! The 2-byte dimension header of a repeating group: the element block
//! length and the element count, each a single byte.
use crate::Reader;
use crate::SbeErr;
use crate::SbeResult;
use crate::Writer;
use crate::spec_get_post;
use crate::spec_put_post;
use crate::spec_reclaim;
use vstd::prelude::*;

verus! {

/// Byte size of the dimension header composite.
pub const ENCODED_LENGTH: usize = 2;

/// Writes the dimension header inside space already reserved by the
/// enclosing frame; it borrows that frame and must hand it back through
/// `parent`.
pub struct SmallGroupSizeEncodingEncoder<P> {
    pub parent: Option<P>,
    pub offset: usize,
}

impl<P: Writer> Writer for SmallGroupSizeEncodingEncoder<P> {
    open spec fn writer_ready(&self) -> bool {
        match self.parent {
            Some(p) => p.writer_ready(),
            None => false,
        }
    }

    open spec fn wbytes(&self) -> Seq<u8> {
        match self.parent {
            Some(p) => p.wbytes(),
            None => Seq::empty(),
        }
    }

    open spec fn wstart(&self) -> int {
        match self.parent {
            Some(p) => p.wstart(),
            None => 0,
        }
    }

    open spec fn wlimit(&self) -> int {
        match self.parent {
            Some(p) => p.wlimit(),
            None => 0,
        }
    }

    fn put_u8_at(&mut self, index: usize, value: u8) -> (r: SbeResult<()>) {
        match &mut self.parent {
            Some(p) => p.put_u8_at(index, value),
            None => Err(SbeErr::ParentNotSet),
        }
    }

    fn put_u16_at(&mut self, index: usize, value: u16) -> (r: SbeResult<()>) {
        match &mut self.parent {
            Some(p) => p.put_u16_at(index, value),
            None => Err(SbeErr::ParentNotSet),
        }
    }

    fn put_u32_at(&mut self, index: usize, value: u32) -> (r: SbeResult<()>) {
        match &mut self.parent {
            Some(p) => p.put_u32_at(index, value),
            None => Err(SbeErr::ParentNotSet),
        }
    }

    fn put_u64_at(&mut self, index: usize, value: u64) -> (r: SbeResult<()>) {
        match &mut self.parent {
            Some(p) => p.put_u64_at(index, value),
            None => Err(SbeErr::ParentNotSet),
        }
    }

    fn put_i64_at(&mut self, index: usize, value: i64) -> (r: SbeResult<()>) {
        match &mut self.parent {
            Some(p) => p.put_i64_at(index, value),
            None => Err(SbeErr::ParentNotSet),
        }
    }
}

impl<P: Writer> SmallGroupSizeEncodingEncoder<P> {
    pub fn wrap(self, parent: P, offset: usize) -> (r: Self)
        ensures
            r.parent == Some(parent),
            r.offset == offset,
    {
        SmallGroupSizeEncodingEncoder { parent: Some(parent), offset }
    }

    /// Hand the enclosing frame back; single-use.
    pub fn parent(&mut self) -> (r: SbeResult<P>)
        ensures
            final(self).offset == old(self).offset,
            (final(self).parent, r) == spec_reclaim(old(self).parent),
    {
        match self.parent.take() {
            Some(p) => Ok(p),
            None => Err(SbeErr::ParentNotSet),
        }
    }

    pub fn block_length(&mut self, value: u8) -> (r: SbeResult<()>)
        requires
            old(self).offset + ENCODED_LENGTH <= usize::MAX,
        ensures
            final(self).offset == old(self).offset,
            final(self).writer_ready() == old(self).writer_ready(),
            final(self).wstart() == old(self).wstart(),
            final(self).wlimit() == old(self).wlimit(),
            spec_put_post(
                old(self).writer_ready(), old(self).wbytes(), final(self).wbytes(),
                old(self).offset as int, seq![value], r),
    {
        let index = self.offset;
        match &mut self.parent {
            Some(p) => p.put_u8_at(index, value),
            None => Err(SbeErr::ParentNotSet),
        }
    }

    pub fn num_in_group(&mut self, value: u8) -> (r: SbeResult<()>)
        requires
            old(self).offset + ENCODED_LENGTH <= usize::MAX,
        ensures
            final(self).offset == old(self).offset,
            final(self).writer_ready() == old(self).writer_ready(),
            final(self).wstart() == old(self).wstart(),
            final(self).wlimit() == old(self).wlimit(),
            spec_put_post(
                old(self).writer_ready(), old(self).wbytes(), final(self).wbytes(),
                old(self).offset + 1, seq![value], r),
    {
        let index = self.offset + 1;
        match &mut self.parent {
            Some(p) => p.put_u8_at(index, value),
            None => Err(SbeErr::ParentNotSet),
        }
    }

}

/// Reads the dimension header.
pub struct SmallGroupSizeEncodingDecoder<P> {
    pub parent: Option<P>,
    pub offset: usize,
}

impl<P: Reader> Reader for SmallGroupSizeEncodingDecoder<P> {
    open spec fn reader_ready(&self) -> bool {
        match self.parent {
            Some(p) => p.reader_ready(),
            None => false,
        }
    }

    open spec fn rbytes(&self) -> Seq<u8> {
        match self.parent {
            Some(p) => p.rbytes(),
            None => Seq::empty(),
        }
    }

    open spec fn rstart(&self) -> int {
        match self.parent {
            Some(p) => p.rstart(),
            None => 0,
        }
    }

    open spec fn rlimit(&self) -> int {
        match self.parent {
            Some(p) => p.rlimit(),
            None => 0,
        }
    }

    fn get_u8_at(&self, index: usize) -> (r: SbeResult<u8>) {
        match &self.parent {
            Some(p) => p.get_u8_at(index),
            None => Err(SbeErr::ParentNotSet),
        }
    }

    fn get_u16_at(&self, index: usize) -> (r: SbeResult<u16>) {
        match &self.parent {
            Some(p) => p.get_u16_at(index),
            None => Err(SbeErr::ParentNotSet),
        }
    }

    fn get_u32_at(&self, index: usize) -> (r: SbeResult<u32>) {
        match &self.parent {
            Some(p) => p.get_u32_at(index),
            None => Err(SbeErr::ParentNotSet),
        }
    }

    fn get_u64_at(&self, index: usize) -> (r: SbeResult<u64>) {
        match &self.parent {
            Some(p) => p.get_u64_at(index),
            None => Err(SbeErr::ParentNotSet),
        }
    }

    fn get_i64_at(&self, index: usize) -> (r: SbeResult<i64>) {
        match &self.parent {
            Some(p) => p.get_i64_at(index),
            None => Err(SbeErr::ParentNotSet),
        }
    }
}

impl<P: Reader> SmallGroupSizeEncodingDecoder<P> {
    pub fn wrap(self, parent: P, offset: usize) -> (r: Self)
        ensures
            r.parent == Some(parent),
            r.offset == offset,
    {
        SmallGroupSizeEncodingDecoder { parent: Some(parent), offset }
    }

    /// Hand the enclosing frame back; single-use.
    pub fn parent(&mut self) -> (r: SbeResult<P>)
        ensures
            final(self).offset == old(self).offset,
            (final(self).parent, r) == spec_reclaim(old(self).parent),
    {
        match self.parent.take() {
            Some(p) => Ok(p),
            None => Err(SbeErr::ParentNotSet),
        }
    }

    pub fn block_length(&self) -> (r: SbeResult<u8>)
        requires
            self.offset + ENCODED_LENGTH <= usize::MAX,
        ensures
            spec_get_post(
                self.reader_ready(), self.rbytes(), self.offset as int, 1, r,
                self.rbytes()[self.offset as int]),
    {
        let index = self.offset;
        match &self.parent {
            Some(p) => p.get_u8_at(index),
            None => Err(SbeErr::ParentNotSet),
        }
    }

    pub fn num_in_group(&self) -> (r: SbeResult<u8>)
        requires
            self.offset + ENCODED_LENGTH <= usize::MAX,
        ensures
            spec_get_post(
                self.reader_ready(), self.rbytes(), self.offset + 1, 1, r,
                self.rbytes()[self.offset + 1]),
    {
        let index = self.offset + 1;
        match &self.parent {
            Some(p) => p.get_u8_at(index),
            None => Err(SbeErr::ParentNotSet),
        }
    }

}


impl<P: Writer> Default for SmallGroupSizeEncodingEncoder<P> {
    fn default() -> (r: Self)
        ensures
            r.parent is None,
            r.offset == 0,
    {
        SmallGroupSizeEncodingEncoder { parent: None, offset: 0 }
    }
}

impl<P: Reader> Default for SmallGroupSizeEncodingDecoder<P> {
    fn default() -> (r: Self)
        ensures
            r.parent is None,
            r.offset == 0,
    {
        SmallGroupSizeEncodingDecoder { parent: None, offset: 0 }
    }
}

} // verus!
