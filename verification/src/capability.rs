use crate::codec::{push_address, push_u64, u64_le_bytes, Address};
use crate::state::{Config, ConfigView};
use vstd::prelude::*;

verus! {

/// The right to act as a derived address. Nobody holds a key to such an
/// address: the right is shown by naming the seeds from which the address
/// derives, and it holds for the one call in which they are named.
#[derive(Clone, Copy, PartialEq, Eq, Debug)]
pub enum Capability {
    /// To act as a pool's configuration record.
    Pool { seed: u64, mint_x: Address, mint_y: Address, bump: u8 },
    /// To act as a pool's LP issuance record.
    Issuance { config: Address, bump: u8 },
}

/// The bytes of the text `config`.
pub open spec fn config_tag() -> Seq<u8> {
    seq![0x63u8, 0x6f, 0x6e, 0x66, 0x69, 0x67]
}

/// The bytes of the text `mint_lp`.
pub open spec fn issuance_tag() -> Seq<u8> {
    seq![0x6du8, 0x69, 0x6e, 0x74, 0x5f, 0x6c, 0x70]
}

/// The capability to act as the configuration record that holds `record`.
pub open spec fn pool_capability(record: ConfigView) -> Capability {
    Capability::Pool {
        seed: record.seed,
        mint_x: record.mint_x,
        mint_y: record.mint_y,
        bump: record.config_bump,
    }
}

impl Capability {
    /// The seeds to name, in order.
    ///
    /// For a configuration record: the text `config`, the pool's seed as
    /// eight bytes, least significant first, mint X, mint Y, the bump. For an
    /// issuance record: the text `mint_lp`, the address of the configuration
    /// record, the bump.
    pub open spec fn seed_list(self) -> Seq<Seq<u8>> {
        match self {
            Capability::Pool { seed, mint_x, mint_y, bump } => seq![
                config_tag(),
                u64_le_bytes(seed),
                mint_x@,
                mint_y@,
                seq![bump],
            ],
            Capability::Issuance { config, bump } => seq![issuance_tag(), config@, seq![bump]],
        }
    }

    /// The capability to act as the configuration record that holds `config`.
    pub fn pool(config: &Config) -> (r: Capability)
        ensures
            r == pool_capability(config@),
    {
        let bump: [u8; 1] = config.config_bump();
        Capability::Pool {
            seed: config.seed(),
            mint_x: *config.mint_x(),
            mint_y: *config.mint_y(),
            bump: bump[0],
        }
    }

    /// The seeds to name, in order, as byte strings.
    pub fn seeds(&self) -> (r: Vec<Vec<u8>>)
        ensures
            r@.len() == self.seed_list().len(),
            forall|i: int| 0 <= i < r@.len() ==> (#[trigger] r@[i])@ == self.seed_list()[i],
    {
        let mut out: Vec<Vec<u8>> = Vec::new();
        match self {
            Capability::Pool { seed, mint_x, mint_y, bump } => {
                let tag: Vec<u8> = vec![0x63u8, 0x6f, 0x6e, 0x66, 0x69, 0x67];
                let mut salt: Vec<u8> = Vec::new();
                push_u64(&mut salt, *seed);
                let mut x: Vec<u8> = Vec::new();
                push_address(&mut x, mint_x);
                let mut y: Vec<u8> = Vec::new();
                push_address(&mut y, mint_y);
                let last: Vec<u8> = vec![*bump];
                out.push(tag);
                out.push(salt);
                out.push(x);
                out.push(y);
                out.push(last);
            },
            Capability::Issuance { config, bump } => {
                let tag: Vec<u8> = vec![0x6du8, 0x69, 0x6e, 0x74, 0x5f, 0x6c, 0x70];
                let mut at: Vec<u8> = Vec::new();
                push_address(&mut at, config);
                let last: Vec<u8> = vec![*bump];
                out.push(tag);
                out.push(at);
                out.push(last);
            },
        }
        out
    }
}

} // verus!
