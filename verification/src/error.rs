//! Why spending data is refused.
use vstd::prelude::*;
use vstd::string::StringExecFns;

verus! {

/// Why a control block could not be read.
#[derive(Clone, Copy, PartialEq, Eq, Debug)]
pub enum TaprootError {
    /// The merkle branch is not a whole number of hashes.
    InvalidMerkleBranchSize(usize),
    /// The merkle branch has more than 128 hashes.
    InvalidMerkleTreeDepth(usize),
    /// The leaf version is not one that a control block can carry.
    InvalidTaprootLeafVersion(u8),
    /// The size is not 33 plus a multiple of 32.
    InvalidControlBlockSize(usize),
    /// The internal key is not an x-only key.
    InvalidInternalKey,
    /// The parity of the output key is not one bit.
    InvalidParity,
    /// There is no script in the tree.
    EmptyTree,
}

/// Why spending data is refused.
#[derive(PartialEq, Eq, Debug)]
pub enum Error {
    /// The script signature holds something that is neither a push nor the number one.
    ExpectedPush,
    /// A spend from before segwit came with a witness.
    NonEmptyWitness,
    /// A native segwit spend came with a script signature.
    NonEmptyScriptSig,
    /// An item was missing on the stack.
    UnexpectedStackEnd,
    /// A boolean stands on the stack where bytes were expected.
    UnexpectedStackBoolean,
    /// Bytes that should be a full public key are not one.
    PubkeyParseError,
    /// Bytes that should be an x-only public key are not one.
    XOnlyPublicKeyParseError,
    /// A segwit spend has an uncompressed key.
    UncompressedPubkey,
    /// The key is not the one that the output commits to.
    IncorrectPubkeyHash,
    /// The key is not the one that the segwit output commits to.
    IncorrectWPubkeyHash,
    /// The redeem script is not the one that the output commits to.
    IncorrectScriptHash,
    /// The witness script is not the one that the output commits to.
    IncorrectWScriptHash,
    /// The witness ends in an annex.
    TapAnnexUnsupported,
    /// The control block could not be read.
    ControlBlockParse(TaprootError),
    /// The control block does not prove that the output commits to the script.
    ControlBlockVerificationError,
    /// The script is not a miniscript; the text says why.
    Miniscript(String),
}

/// The text for a script that is no miniscript goes on with the reason, which can be read off it.
pub proof fn law_message_gives_the_reason(reason: String)
    ensures
        Error::Miniscript(reason).message_model().len() == 13 + reason@.len(),
        Error::Miniscript(reason).message_model().skip(13) == reason@,
        Error::Miniscript(reason).message_model().take(13) == "parse error: "@,
{
    reveal_strlit("parse error: ");
    assert(Error::Miniscript(reason).message_model().skip(13) =~= reason@);
    assert(Error::Miniscript(reason).message_model().take(13) =~= "parse error: "@);
}

impl Error {
    /// The text of [`Error::message`].
    pub open spec fn message_model(self) -> Seq<char> {
        match self {
            Error::ExpectedPush => "expected push in script"@,
            Error::NonEmptyWitness => "legacy spend had nonempty witness"@,
            Error::NonEmptyScriptSig => "segwit spend had nonempty scriptsig"@,
            Error::UnexpectedStackEnd => "unexpected end of stack"@,
            Error::UnexpectedStackBoolean => "expected stack push, found stack boolean"@,
            Error::PubkeyParseError => "could not parse pubkey"@,
            Error::XOnlyPublicKeyParseError => "could not parse x-only pubkey"@,
            Error::UncompressedPubkey => "uncompressed pubkey in non-legacy descriptor"@,
            Error::IncorrectPubkeyHash => "public key did not match scriptpubkey"@,
            Error::IncorrectWPubkeyHash => "public key did not match scriptpubkey (segwit v0)"@,
            Error::IncorrectScriptHash => "redeem script did not match scriptpubkey"@,
            Error::IncorrectWScriptHash => "witness script did not match scriptpubkey"@,
            Error::TapAnnexUnsupported => "encountered annex element"@,
            Error::ControlBlockParse(_) => "control block parse error"@,
            Error::ControlBlockVerificationError => "control block verification failed"@,
            Error::Miniscript(reason) => "parse error: "@ + reason@,
        }
    }

    /// A text for a human reader.
    pub fn message(&self) -> (text: String)
        ensures
            text@ == self.message_model(),
    {
        let text = match self {
            Error::ExpectedPush => "expected push in script",
            Error::NonEmptyWitness => "legacy spend had nonempty witness",
            Error::NonEmptyScriptSig => "segwit spend had nonempty scriptsig",
            Error::UnexpectedStackEnd => "unexpected end of stack",
            Error::UnexpectedStackBoolean => "expected stack push, found stack boolean",
            Error::PubkeyParseError => "could not parse pubkey",
            Error::XOnlyPublicKeyParseError => "could not parse x-only pubkey",
            Error::UncompressedPubkey => "uncompressed pubkey in non-legacy descriptor",
            Error::IncorrectPubkeyHash => "public key did not match scriptpubkey",
            Error::IncorrectWPubkeyHash => "public key did not match scriptpubkey (segwit v0)",
            Error::IncorrectScriptHash => "redeem script did not match scriptpubkey",
            Error::IncorrectWScriptHash => "witness script did not match scriptpubkey",
            Error::TapAnnexUnsupported => "encountered annex element",
            Error::ControlBlockParse(_) => "control block parse error",
            Error::ControlBlockVerificationError => "control block verification failed",
            Error::Miniscript(reason) => {
                return "parse error: ".to_owned().concat(reason.as_str());
            },
        };
        text.to_owned()
    }
}

} // verus!
