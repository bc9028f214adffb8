use vstd::prelude::*;
use crate::base::address_type::{StripeAddr, VirtualBlkAddr};
use crate::base::memory::SECTOR_SIZE;
use crate::bio::ubio::UbioDir;
use crate::event_scheduler::callback::Callback;

verus! {

/// An I/O on a volume: where it goes, which way, its buffer, the callback to run when it is
/// done, what address translation found for it (with the device block address once
/// translated), and the I/O it was made for, if any.
pub struct VolumeIo {
    pub array_id: u32,
    pub vol_id: Option<u32>,
    pub sector_rba: Option<u64>,
    pub sector_size: u64,
    pub dir: UbioDir,
    pub buffer: Vec<u8>,
    pub callback: Option<Callback>,
    pub vsa: Option<VirtualBlkAddr>,
    pub stripe_id: Option<u64>,
    pub lsid_entry: Option<StripeAddr>,
    pub old_lsid_entry: Option<StripeAddr>,
    pub lba: u64,
    pub array_dev: Option<u32>,
    pub origin: Option<Box<VolumeIo>>,
}

/// Whether `sectors` sectors, and their bytes, can be split off `v`.
pub open spec fn split_fits(v: VolumeIo, sectors: u64) -> bool {
    &&& v.sector_rba is Some
    &&& v.sector_rba->0 + v.sector_size <= u64::MAX
    &&& sectors <= v.sector_size
    &&& sectors * SECTOR_SIZE <= v.buffer@.len()
}

/// Tells whether `sectors` sectors, and their bytes, can be split off `v`.
pub fn split_fits_now(v: &VolumeIo, sectors: u64) -> (r: bool)
    ensures
        r == split_fits(*v, sectors),
{
    match v.sector_rba {
        None => false,
        Some(rba) => {
            if rba > u64::MAX - v.sector_size || sectors > v.sector_size {
                return false;
            }
            let len = v.buffer.len();
            assert(len as u64 == len);
            sectors <= (len as u64) / SECTOR_SIZE
        },
    }
}

impl VolumeIo {
    /// An I/O of `sector_size` sectors at sector `sector_rba` of volume `volume_id` of array
    /// `array_id`, going `dir`, with buffer `buffer`, that runs `callback` when done.
    pub fn new(array_id: u32, volume_id: u32, sector_rba: u64, sector_size: u64, dir: UbioDir, buffer: Vec<u8>, callback: Callback) -> (r: VolumeIo)
        ensures
            r.array_id == array_id,
            r.vol_id == Some(volume_id),
            r.sector_rba == Some(sector_rba),
            r.sector_size == sector_size,
            r.dir == dir,
            r.buffer@ == buffer@,
            r.callback == Some(callback),
            r.vsa is None,
            r.stripe_id is None,
            r.lsid_entry is None,
            r.old_lsid_entry is None,
            r.lba == 0,
            r.array_dev is None,
            r.origin is None,
    {
        VolumeIo {
            array_id,
            vol_id: Some(volume_id),
            sector_rba: Some(sector_rba),
            sector_size,
            dir,
            buffer,
            callback: Some(callback),
            vsa: None,
            stripe_id: None,
            lsid_entry: None,
            old_lsid_entry: None,
            lba: 0,
            array_dev: None,
            origin: None,
        }
    }

    /// Splits the first `sectors` sectors (or, `from_tail`, the last ones) off this I/O, with
    /// their bytes: the part split off is returned as an I/O of its own, going the same way on
    /// the same volume, with no callback, translation or origin; this I/O keeps the rest.
    pub fn Split(&mut self, sectors: u64, from_tail: bool) -> (r: VolumeIo)
        requires
            split_fits(*old(self), sectors),
        ensures
            ({
                let rba = old(self).sector_rba->0;
                let size = old(self).sector_size;
                let b = old(self).buffer@;
                let cut = (sectors * SECTOR_SIZE) as int;
                &&& r.array_id == old(self).array_id
                &&& r.vol_id == old(self).vol_id
                &&& r.dir == old(self).dir
                &&& r.sector_size == sectors
                &&& r.sector_rba == Some(if from_tail { (rba + size - sectors) as u64 } else { rba })
                &&& r.buffer@ == if from_tail { b.subrange(b.len() - cut, b.len() as int) } else { b.subrange(0, cut) }
                &&& r.callback is None && r.vsa is None && r.stripe_id is None
                &&& r.lsid_entry is None && r.old_lsid_entry is None
                &&& r.lba == 0 && r.array_dev is None && r.origin is None
                &&& final(self).sector_size == size - sectors
                &&& final(self).sector_rba == Some(if from_tail { rba } else { (rba + sectors) as u64 })
                &&& final(self).buffer@ == if from_tail { b.subrange(0, b.len() - cut) } else { b.subrange(cut, b.len() as int) }
                &&& final(self).array_id == old(self).array_id
                &&& final(self).vol_id == old(self).vol_id
                &&& final(self).dir == old(self).dir
            }),
    {
        let rba = self.sector_rba.unwrap();
        let len = self.buffer.len();
        assert(len as u64 == len);
        let cut = (sectors * SECTOR_SIZE) as usize;
        let (start, rest_rba) = if from_tail {
            (rba + (self.sector_size - sectors), rba)
        } else {
            (rba, rba + sectors)
        };
        let mut part: Vec<u8> = Vec::new();
        let mut rest: Vec<u8> = Vec::new();
        let cut_at = if from_tail { len - cut } else { cut };
        let mut i: usize = 0;
        while i < len
            invariant
                i <= len,
                len == self.buffer@.len(),
                cut_at <= len,
                self.buffer@ == old(self).buffer@,
                from_tail ==> part@ == self.buffer@.subrange(cut_at as int, if i > cut_at { i as int } else { cut_at as int }),
                from_tail ==> rest@ == self.buffer@.subrange(0, if i < cut_at { i as int } else { cut_at as int }),
                !from_tail ==> part@ == self.buffer@.subrange(0, if i < cut_at { i as int } else { cut_at as int }),
                !from_tail ==> rest@ == self.buffer@.subrange(cut_at as int, if i > cut_at { i as int } else { cut_at as int }),
            decreases len - i,
        {
            let in_front = i < cut_at;
            if in_front != from_tail {
                part.push(self.buffer[i]);
            } else {
                rest.push(self.buffer[i]);
            }
            i = i + 1;
        }
        self.buffer = rest;
        self.sector_size = self.sector_size - sectors;
        self.sector_rba = Some(rest_rba);
        VolumeIo {
            array_id: self.array_id,
            vol_id: self.vol_id,
            sector_rba: Some(start),
            sector_size: sectors,
            dir: self.dir,
            buffer: part,
            callback: None,
            vsa: None,
            stripe_id: None,
            lsid_entry: None,
            old_lsid_entry: None,
            lba: 0,
            array_dev: None,
            origin: None,
        }
    }
}

} // verus!
