//! How attached USB devices are listed, one line each, so that the id
//! shown can be pasted into the config as `usb_device_id`.

use crate::config::vid_pid;
use crate::radix::{
    hex4, hex4_upper, is_hex_digit, lemma_hex4_parses, lemma_hex4_upper_parses,
    lemma_hex_digits_of_both_cases, push_hex4,
};
use vstd::prelude::*;

verus! {

/// `vvvv:pppp` in lowercase hex.
pub open spec fn vid_pid_chars(vendor_id: nat, product_id: nat) -> Seq<char> {
    hex4(vendor_id) + seq![':'] + hex4(product_id)
}

/// An optional string, empty when absent.
pub open spec fn or_empty(s: Option<Seq<char>>) -> Seq<char> {
    match s {
        Some(t) => t,
        None => Seq::empty(),
    }
}

/// `vendor:product<TAB>manufacturer<TAB>product<TAB>serial`.
pub open spec fn device_line_chars(
    vendor_id: nat,
    product_id: nat,
    manufacturer: Option<Seq<char>>,
    product: Option<Seq<char>>,
    serial: Option<Seq<char>>,
) -> Seq<char> {
    vid_pid_chars(vendor_id, product_id) + seq!['\t'] + or_empty(manufacturer) + seq!['\t']
        + or_empty(product) + seq!['\t'] + or_empty(serial)
}

fn opt_view(s: Option<&str>) -> (r: &str)
    ensures
        r@ == or_empty(
            match s {
                Some(t) => Some(t@),
                None => None,
            },
        ),
{
    match s {
        Some(t) => t,
        None => {
            proof {
                reveal_strlit("");
            }
            ""
        },
    }
}

/// The `vvvv:pppp` id of a device.
pub fn vid_pid_text(vendor_id: u16, product_id: u16) -> (s: String)
    ensures
        s@ == vid_pid_chars(vendor_id as nat, product_id as nat),
{
    let mut s = String::new();
    push_hex4(&mut s, vendor_id);
    proof {
        reveal_strlit(":");
    }
    s.append(":");
    push_hex4(&mut s, product_id);
    assert(s@ =~= vid_pid_chars(vendor_id as nat, product_id as nat));
    s
}

/// One line of the device list: id, manufacturer, product and serial,
/// tab-separated, absent strings left empty.
pub fn device_line(
    vendor_id: u16,
    product_id: u16,
    manufacturer: Option<&str>,
    product: Option<&str>,
    serial: Option<&str>,
) -> (s: String)
    ensures
        s@ == device_line_chars(
            vendor_id as nat,
            product_id as nat,
            match manufacturer {
                Some(t) => Some(t@),
                None => None,
            },
            match product {
                Some(t) => Some(t@),
                None => None,
            },
            match serial {
                Some(t) => Some(t@),
                None => None,
            },
        ),
{
    let mut s = vid_pid_text(vendor_id, product_id);
    proof {
        reveal_strlit("\t");
    }
    s.append("\t");
    s.append(opt_view(manufacturer));
    s.append("\t");
    s.append(opt_view(product));
    s.append("\t");
    s.append(opt_view(serial));
    assert(s@ =~= device_line_chars(
        vendor_id as nat,
        product_id as nat,
        match manufacturer {
            Some(t) => Some(t@),
            None => None,
        },
        match product {
            Some(t) => Some(t@),
            None => None,
        },
        match serial {
            Some(t) => Some(t@),
            None => None,
        },
    ));
    s
}

/// The id the device list shows for a device is read back by the config
/// as that device's vendor and product ids.
pub proof fn lemma_listed_id_reads_back(vendor_id: u16, product_id: u16)
    ensures
        vid_pid(vid_pid_chars(vendor_id as nat, product_id as nat)) == Some(
            (vendor_id as nat, product_id as nat),
        ),
{
    let v = vendor_id as nat;
    let p = product_id as nat;
    let s = vid_pid_chars(v, p);
    lemma_hex4_parses(v);
    lemma_hex4_parses(p);
    assert(s[4] == ':');
    assert forall|k: int| 0 <= k < 4 implies s[k] != ':' by {
        assert(s[k] == hex4(v)[k]);
        assert(is_hex_digit(hex4(v)[k]));
    }
    s.index_of_first_ensures(':');
    assert(s.contains(':'));
    match s.index_of_first(':') {
        Some(j) => {
            if j < 4 {
                assert(s[j] != ':');
            }
            if j > 4 {
                assert(s[4] != ':');
            }
        },
        None => {},
    }
    assert(s.take(4) =~= hex4(v));
    assert(s.skip(5) =~= hex4(p));
}

/// An id written in uppercase, `VVVV:PPPP` (as Windows Device Manager
/// shows `VID_046D&PID_C52B`), reads back as the same vendor and product
/// ids as its lowercase form.
pub proof fn lemma_uppercase_id_reads_back(vendor_id: u16, product_id: u16)
    ensures
        vid_pid(hex4_upper(vendor_id as nat) + seq![':'] + hex4_upper(product_id as nat)) == Some(
            (vendor_id as nat, product_id as nat),
        ),
{
    let v = vendor_id as nat;
    let p = product_id as nat;
    let s = hex4_upper(v) + seq![':'] + hex4_upper(p);
    lemma_hex4_upper_parses(v);
    lemma_hex4_upper_parses(p);
    lemma_hex_digits_of_both_cases();
    assert(s[4] == ':');
    assert forall|k: int| 0 <= k < 4 implies s[k] != ':' by {
        assert(s[k] == hex4_upper(v)[k]);
        assert(is_hex_digit(hex4_upper(v)[k]));
    }
    s.index_of_first_ensures(':');
    assert(s.contains(':'));
    match s.index_of_first(':') {
        Some(j) => {
            if j < 4 {
                assert(s[j] != ':');
            }
            if j > 4 {
                assert(s[4] != ':');
            }
        },
        None => {},
    }
    assert(s.take(4) =~= hex4_upper(v));
    assert(s.skip(5) =~= hex4_upper(p));
}

/// The watch loop's state: the device watched for, and the keys of the
/// watched devices now connected (so that their disconnects can be told
/// apart from other devices').
#[derive(Debug, Clone)]
pub struct WatchState {
    pub vendor_id: u16,
    pub product_id: u16,
    pub present: Vec<u64>,
}

impl WatchState {
    /// Watch for the device with these ids; none is known to be connected.
    pub fn new(vendor_id: u16, product_id: u16) -> (s: WatchState)
        ensures
            s.vendor_id == vendor_id,
            s.product_id == product_id,
            s.present@ == Seq::<u64>::empty(),
    {
        WatchState { vendor_id, product_id, present: Vec::new() }
    }

    /// A device with key `key` connected. Returns whether it is the watched
    /// device, which then is remembered and must be switched to: every
    /// connect of the watched device asks for a switch, whatever came
    /// before; no other connect does.
    pub fn connected(&mut self, key: u64, vendor_id: u16, product_id: u16) -> (switch: bool)
        ensures
            switch == (vendor_id == old(self).vendor_id && product_id == old(self).product_id),
            final(self).vendor_id == old(self).vendor_id,
            final(self).product_id == old(self).product_id,
            final(self).present@ == (if switch {
                old(self).present@.push(key)
            } else {
                old(self).present@
            }),
    {
        if vendor_id == self.vendor_id && product_id == self.product_id {
            self.present.push(key);
            true
        } else {
            false
        }
    }

    /// The device with key `key` disconnected. Returns whether it was a
    /// remembered watched device, which is then forgotten (its first entry
    /// removed); a disconnect never asks for a switch.
    pub fn disconnected(&mut self, key: u64) -> (was_watched: bool)
        ensures
            was_watched == old(self).present@.contains(key),
            final(self).vendor_id == old(self).vendor_id,
            final(self).product_id == old(self).product_id,
            !was_watched ==> final(self).present@ == old(self).present@,
            was_watched ==> exists|i: int|
                0 <= i < old(self).present@.len() && old(self).present@[i] == key && (forall|k: int|
                    0 <= k < i ==> old(self).present@[k] != key) && final(self).present@ == old(
                    self,
                ).present@.remove(i),
    {
        let mut i: usize = 0;
        while i < self.present.len()
            invariant
                i <= self.present@.len(),
                self.present@ == old(self).present@,
                self.vendor_id == old(self).vendor_id,
                self.product_id == old(self).product_id,
                forall|k: int| 0 <= k < i ==> self.present@[k] != key,
            decreases self.present.len() - i,
        {
            if self.present[i] == key {
                let ghost before = self.present@;
                self.present.remove(i);
                assert(before[i as int] == key);
                return true;
            }
            i = i + 1;
        }
        proof {
            if old(self).present@.contains(key) {
                let j = choose|j: int| 0 <= j < old(self).present@.len() && old(self).present@[j] == key;
                assert(old(self).present@[j] != key);
            }
        }
        false
    }
}

} // verus!
