# tsp_ltv

Signature verification shared by timestamping (RFC 3161) and long-term
validation: RSA PKCS#1 v1.5, RSASSA-PSS (with strict RFC 4055 parameter
handling), ECDSA bound to the key's named curve, and Ed25519, selected by the
signature algorithm identifier; and X.509 certificate signature checks.

Layout:

- `src/crypto/verify.rs`: the verifiers, each with a contract that states its
  exact outcome (`Ok` or which error) as a spec function of its inputs.
- `src/crypto/laws.rs`: properties across the verifiers (dispatch, PSS
  parameters, curve binding, certificate algorithm consistency).
- `src/crypto/algorithm.rs`, `src/crypto/oid.rs`, `src/error.rs`: algorithm
  identifiers, digests and errors.
- `src/backend/`: the calls into the RustCrypto crates (`rsa`, `ecdsa`,
  `p256`, `p384`, `p521`, `ed25519-dalek`, `sha1`, `sha2`, `md-5`, `spki`,
  `x509-cert`), each behind a wrapper whose contract names what it returns.
- `app/lib.rs`: entry points over the `const-oid`, `spki` and `x509-cert`
  types.
