use anchor_lang::prelude::Pubkey;
use vstd::prelude::*;

verus! {

/// Whose signature authorizes a transfer.
#[derive(Clone, Copy, Debug, PartialEq, Eq)]
pub enum TransferSigner {
    /// The user, who signed the request itself.
    User,
    /// The vault's own authority, for which the program signs by seed and bump.
    VaultAuthority { bump: u8 },
}

/// A transfer that the vault asks the token ledger to make. The vault moves no
/// balance itself: a request is carried out by the ledger, wholly or not at all.
#[derive(Clone, Copy, Debug, PartialEq, Eq)]
pub struct TransferRequest {
    /// The token account to debit.
    pub from: Pubkey,
    /// The token account to credit.
    pub to: Pubkey,
    /// The identity that the ledger must find in control of `from`.
    pub authority: Pubkey,
    /// How much to move, in the token's smallest unit.
    pub amount: u64,
    pub signer: TransferSigner,
}

/// The label from which the vault authority's address is derived: the bytes of
/// `vault-authority`.
pub open spec fn vault_authority_label() -> Seq<u8> {
    seq![118u8, 97u8, 117u8, 108u8, 116u8, 45u8, 97u8, 117u8, 116u8, 104u8, 111u8, 114u8, 105u8, 116u8, 121u8]
}

/// The seeds that sign for `signer`: none for the user, the label and then the bump
/// for the vault's authority.
pub open spec fn signer_seeds_of(signer: TransferSigner) -> Seq<Seq<u8>> {
    match signer {
        TransferSigner::User => seq![],
        TransferSigner::VaultAuthority { bump } => seq![vault_authority_label(), seq![bump]],
    }
}

impl TransferRequest {
    /// The seeds to sign this transfer with, as the runtime takes them.
    pub fn signer_seeds(&self) -> (seeds: Vec<Vec<u8>>)
        ensures
            seeds.deep_view() == signer_seeds_of(self.signer),
    {
        match self.signer {
            TransferSigner::User => {
                let seeds: Vec<Vec<u8>> = Vec::new();
                assert(seeds.deep_view() =~= signer_seeds_of(self.signer));
                seeds
            },
            TransferSigner::VaultAuthority { bump } => {
                let label: Vec<u8> = vec![118u8, 97u8, 117u8, 108u8, 116u8, 45u8, 97u8, 117u8, 116u8, 104u8, 111u8, 114u8, 105u8, 116u8, 121u8];
                let tail: Vec<u8> = vec![bump];
                let seeds: Vec<Vec<u8>> = vec![label, tail];
                assert(label.deep_view() =~= vault_authority_label());
                assert(tail.deep_view() =~= seq![bump]);
                assert(seeds.deep_view() =~= signer_seeds_of(self.signer));
                seeds
            },
        }
    }
}

} // verus!
