use vstd::prelude::*;

verus! {

/// What an actor is, as contracts see it.
pub struct ActorView {
    pub domain: Seq<char>,
    pub id: Seq<char>,
    pub preferred_username: Seq<char>,
    pub public_key_id: Seq<char>,
    pub private_key: Seq<u8>,
}

/// The local sender: its identity and the key it signs with. It is built
/// once and never changes. The private key stays with its owner and is only
/// borrowed. An actor has no `Debug` form, so that the key cannot end up in
/// a log.
pub struct Actor<'k> {
    domain: String,
    id: String,
    preferred_username: String,
    public_key_id: String,
    private_key: &'k [u8],
}

/// The URI of the actor that lives on `domain`.
pub open spec fn actor_id_text(domain: Seq<char>) -> Seq<char> {
    "https://"@ + domain + "/actor"@
}

impl<'k> View for Actor<'k> {
    type V = ActorView;

    closed spec fn view(&self) -> ActorView {
        ActorView {
            domain: self.domain@,
            id: self.id@,
            preferred_username: self.preferred_username@,
            public_key_id: self.public_key_id@,
            private_key: self.private_key@,
        }
    }
}

impl<'k> Actor<'k> {
    /// An actor's id is the actor URI of its domain.
    pub open spec fn wf(&self) -> bool {
        self@.id == actor_id_text(self@.domain)
    }

    /// The actor of `domain`. `public_key_id` is the URI under which its
    /// public key is published, `private_key` the PEM text of the RSA key
    /// it signs with.
    pub fn new(
        domain: &str,
        preferred_username: &str,
        public_key_id: &str,
        private_key: &'k [u8],
    ) -> (actor: Actor<'k>)
        ensures
            actor.wf(),
            actor@.domain == domain@,
            actor@.preferred_username == preferred_username@,
            actor@.public_key_id == public_key_id@,
            actor@.private_key == private_key@,
    {
        let mut id = String::from_str("https://");
        id.append(domain);
        id.append("/actor");
        Actor {
            domain: String::from_str(domain),
            id,
            preferred_username: String::from_str(preferred_username),
            public_key_id: String::from_str(public_key_id),
            private_key,
        }
    }

    pub fn domain(&self) -> (s: &str)
        ensures
            s@ == self@.domain,
    {
        self.domain.as_str()
    }

    pub fn id(&self) -> (s: &str)
        ensures
            s@ == self@.id,
    {
        self.id.as_str()
    }

    pub fn preferred_username(&self) -> (s: &str)
        ensures
            s@ == self@.preferred_username,
    {
        self.preferred_username.as_str()
    }

    pub fn public_key_id(&self) -> (s: &str)
        ensures
            s@ == self@.public_key_id,
    {
        self.public_key_id.as_str()
    }

    /// The PEM text of the private key, lent for signing.
    pub fn private_key(&self) -> (pem: &'k [u8])
        ensures
            pem@ == self@.private_key,
    {
        self.private_key
    }
}

} // verus!
