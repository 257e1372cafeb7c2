use vstd::prelude::*;

verus! {

/// What a verified credential says: the identity of its holder.
pub struct Claim {
    pub name: String,
}

/// A caller whose credential has been verified.
pub struct Auth(pub Claim);

/// Request for a credential issued to `name`.
pub struct TokenParams {
    pub name: String,
}

/// Request to check the credential `token`.
pub struct VerifyParams {
    pub token: String,
}

impl Claim {
    pub fn new(name: String) -> (r: Claim)
        ensures
            r.name@ == name@,
    {
        Claim { name }
    }
}

impl Auth {
    /// The identity of the caller.
    pub fn name(&self) -> (r: &String)
        ensures
            r@ == self.0.name@,
    {
        &self.0.name
    }

    /// The identity of the caller, taking the credential apart.
    pub fn into_name(self) -> (r: String)
        ensures
            r@ == self.0.name@,
    {
        self.0.name
    }
}

impl TokenParams {
    pub fn new(name: String) -> (r: TokenParams)
        ensures
            r.name@ == name@,
    {
        TokenParams { name }
    }

    /// The claim that a credential for this request carries.
    pub fn into_claim(self) -> (r: Claim)
        ensures
            r.name@ == self.name@,
    {
        Claim { name: self.name }
    }
}

impl VerifyParams {
    pub fn new(token: String) -> (r: VerifyParams)
        ensures
            r.token@ == token@,
    {
        VerifyParams { token }
    }
}

} // verus!
