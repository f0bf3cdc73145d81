# spend_data

Takes the spending data of a Bitcoin transaction input apart: from an output script, a script
signature and a witness it finds what the spend is evaluated against (one key, or a miniscript),
which stack items are left for the evaluation, and which script a signature hash is taken over.
A spend whose key or script is not the one that the output commits to is refused.

* `src/` is the library, verified with Verus. `txdata` holds the entry points `from_txdata` and
  `from_txdata_with`; `inner` what they return and the steps that need a decoded script; `stack`,
  `script`, `script_sig`, `keys`, `taproot` and `miniscript` the values they work on; `crypto`,
  `script` and `script_sig` the calls into the `bitcoin` crate; `laws` and `tree_laws` what holds
  of every spend.
* `app/` offers the same in the types of the `bitcoin` crate, with a trait for the decoder of
  scripts, which the library leaves to its user.
* `tests/` runs the library on concrete spends.
