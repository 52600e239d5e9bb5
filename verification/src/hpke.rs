//! The wire form of HPKE configurations.

use vstd::prelude::*;
use crate::config::HpkeConfig;
use crate::names::append_bytes;
use crate::share::copy_bytes;

verus! {

/// An HPKE configuration as plain values.
pub struct HpkeConfigView {
    pub id: u8,
    pub kem_id: u16,
    pub kdf_id: u16,
    pub aead_id: u16,
    pub public_key: Seq<u8>,
}

impl View for HpkeConfig {
    type V = HpkeConfigView;

    open spec fn view(&self) -> HpkeConfigView {
        HpkeConfigView {
            id: self.id,
            kem_id: self.kem_id,
            kdf_id: self.kdf_id,
            aead_id: self.aead_id,
            public_key: self.public_key@,
        }
    }
}

/// A 16-bit number as two bytes, the high one first.
pub open spec fn u16_bytes(n: int) -> Seq<u8> {
    seq![(n / 256) as u8, (n % 256) as u8]
}

/// The 16-bit number that two bytes of a text denote, the high one first.
pub open spec fn u16_at(bytes: Seq<u8>, at: int) -> int {
    bytes[at] * 256 + bytes[at + 1]
}

/// The wire form of a configuration: its identifier, the identifiers of
/// its three algorithms, and the public key behind its length.
pub open spec fn config_encoded(config: HpkeConfigView) -> Seq<u8> {
    seq![config.id] + u16_bytes(config.kem_id as int) + u16_bytes(config.kdf_id as int)
        + u16_bytes(config.aead_id as int) + u16_bytes(config.public_key.len() as int)
        + config.public_key
}

/// The configuration that a text is the wire form of, all of the text and
/// nothing less.
pub open spec fn config_decoded(bytes: Seq<u8>) -> Option<HpkeConfigView> {
    if bytes.len() >= 9 && u16_at(bytes, 7) == bytes.len() - 9 {
        Some(
            HpkeConfigView {
                id: bytes[0],
                kem_id: u16_at(bytes, 1) as u16,
                kdf_id: u16_at(bytes, 3) as u16,
                aead_id: u16_at(bytes, 5) as u16,
                public_key: bytes.subrange(9, bytes.len() as int),
            },
        )
    } else {
        None
    }
}

/// The wire form of a list that holds one configuration: the configuration
/// behind its length.
pub open spec fn config_list_encoded(config: HpkeConfigView) -> Seq<u8> {
    u16_bytes(config_encoded(config).len() as int) + config_encoded(config)
}

/// Appends a 16-bit number, the high byte first.
fn push_u16(out: &mut Vec<u8>, n: u16)
    ensures
        final(out)@ == old(out)@ + u16_bytes(n as int),
{
    out.push((n / 256) as u8);
    out.push((n % 256) as u8);
    assert(out@ =~= old(out)@ + u16_bytes(n as int));
}

/// Reads a 16-bit number, the high byte first.
fn read_u16(bytes: &[u8], at: usize) -> (r: u16)
    requires
        at + 1 < bytes@.len(),
    ensures
        r == u16_at(bytes@, at as int),
{
    let hi: u16 = bytes[at] as u16;
    let lo: u16 = bytes[at + 1] as u16;
    hi * 256 + lo
}

impl HpkeConfig {
    /// The wire form of this configuration; `None` where the public key is
    /// too long for its length to be written.
    pub fn encode(&self) -> (r: Option<Vec<u8>>)
        ensures
            r.is_some() == (self@.public_key.len() <= 0xffff),
            r.is_some() ==> r.unwrap()@ == config_encoded(self@),
    {
        if self.public_key.len() > 0xffff {
            return None;
        }
        let mut out: Vec<u8> = Vec::new();
        out.push(self.id);
        assert(out@ =~= seq![self.id]);
        push_u16(&mut out, self.kem_id);
        push_u16(&mut out, self.kdf_id);
        push_u16(&mut out, self.aead_id);
        push_u16(&mut out, self.public_key.len() as u16);
        append_bytes(&mut out, self.public_key.as_slice());
        Some(out)
    }

    /// Reads a configuration from its wire form.
    pub fn decode(bytes: &[u8]) -> (r: Option<HpkeConfig>)
        ensures
            match r {
                Some(config) => config_decoded(bytes@) == Some(config@),
                None => config_decoded(bytes@).is_none(),
            },
    {
        if bytes.len() < 9 {
            return None;
        }
        let len = read_u16(bytes, 7);
        if len as usize != bytes.len() - 9 {
            return None;
        }
        let mut public_key: Vec<u8> = Vec::new();
        let mut i: usize = 9;
        while i < bytes.len()
            invariant
                9 <= i <= bytes@.len(),
                public_key@ =~= bytes@.subrange(9, i as int),
            decreases bytes@.len() - i,
        {
            public_key.push(bytes[i]);
            i += 1;
        }
        Some(
            HpkeConfig {
                id: bytes[0],
                kem_id: read_u16(bytes, 1),
                kdf_id: read_u16(bytes, 3),
                aead_id: read_u16(bytes, 5),
                public_key,
            },
        )
    }

    /// The wire form of the list that holds this configuration alone;
    /// `None` where the list is too long for its length to be written.
    pub fn encode_as_list(&self) -> (r: Option<Vec<u8>>)
        ensures
            r.is_some() == (self@.public_key.len() + 9 <= 0xffff),
            r.is_some() ==> r.unwrap()@ == config_list_encoded(self@),
    {
        match self.encode() {
            None => None,
            Some(encoded) => {
                if encoded.len() > 0xffff {
                    return None;
                }
                let mut out: Vec<u8> = Vec::new();
                push_u16(&mut out, encoded.len() as u16);
                append_bytes(&mut out, encoded.as_slice());
                Some(out)
            },
        }
    }

    /// A copy of this configuration.
    pub fn duplicate(&self) -> (r: HpkeConfig)
        ensures
            r@ == self@,
    {
        HpkeConfig {
            id: self.id,
            kem_id: self.kem_id,
            kdf_id: self.kdf_id,
            aead_id: self.aead_id,
            public_key: copy_bytes(&self.public_key),
        }
    }
}

/// Reading undoes writing: the wire form of a configuration whose public
/// key is not too long is read as that configuration.
pub proof fn lemma_config_decode_encode(config: HpkeConfigView)
    requires
        config.public_key.len() <= 0xffff,
    ensures
        config_decoded(config_encoded(config)) == Some(config),
{
    let bytes = config_encoded(config);
    assert(bytes.len() == 9 + config.public_key.len());
    assert(bytes.subrange(9, bytes.len() as int) =~= config.public_key);
    assert(bytes[0] == config.id);
    assert(bytes[1] == (config.kem_id as int / 256) as u8);
    assert(bytes[2] == (config.kem_id as int % 256) as u8);
    assert(bytes[3] == (config.kdf_id as int / 256) as u8);
    assert(bytes[4] == (config.kdf_id as int % 256) as u8);
    assert(bytes[5] == (config.aead_id as int / 256) as u8);
    assert(bytes[6] == (config.aead_id as int % 256) as u8);
    assert(bytes[7] == (config.public_key.len() as int / 256) as u8);
    assert(bytes[8] == (config.public_key.len() as int % 256) as u8);
}

} // verus!
