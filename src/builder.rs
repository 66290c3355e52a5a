//! Construction of a session: every field but the application id has a
//! default.
use vstd::prelude::*;

use crate::error::PylonBuilderError;
use crate::outside::{
    all_abilities, default_relay_server, default_rendezvous_server, spec_default_relay_server,
    spec_default_rendezvous_server,
};
use crate::session::{all_known_abilities, Abilities, Pylon};

verus! {

/// Builder for [`Pylon`]. The application id is required; the relay and
/// rendezvous URLs default to magic-wormhole's public servers and the
/// abilities to every known one; accepting an offer replaces
/// an existing destination file unless that is switched off.
pub struct PylonBuilder {
    pub id: Option<String>,
    pub relay_url: Option<String>,
    pub rendezvous_url: Option<String>,
    pub abilities: Option<Abilities>,
    pub overwrite: Option<bool>,
}

impl Default for PylonBuilder {
    fn default() -> (r: Self)
        ensures
            r.id is None,
            r.relay_url is None,
            r.rendezvous_url is None,
            r.abilities is None,
            r.overwrite is None,
    {
        PylonBuilder {
            id: None,
            relay_url: None,
            rendezvous_url: None,
            abilities: None,
            overwrite: None,
        }
    }
}

impl PylonBuilder {
    /// Sets the application id.
    pub fn id(self, id: String) -> (r: Self)
        ensures
            r == (PylonBuilder { id: Some(id), ..self }),
    {
        PylonBuilder { id: Some(id), ..self }
    }

    /// Sets the relay server URL.
    pub fn relay_url(self, relay_url: String) -> (r: Self)
        ensures
            r == (PylonBuilder { relay_url: Some(relay_url), ..self }),
    {
        PylonBuilder { relay_url: Some(relay_url), ..self }
    }

    /// Sets the rendezvous server URL.
    pub fn rendezvous_url(self, rendezvous_url: String) -> (r: Self)
        ensures
            r == (PylonBuilder { rendezvous_url: Some(rendezvous_url), ..self }),
    {
        PylonBuilder { rendezvous_url: Some(rendezvous_url), ..self }
    }

    /// Sets the transit abilities.
    pub fn abilities(self, abilities: Abilities) -> (r: Self)
        ensures
            r == (PylonBuilder { abilities: Some(abilities), ..self }),
    {
        PylonBuilder { abilities: Some(abilities), ..self }
    }

    /// Sets whether accepting an offer may replace an existing destination
    /// file.
    pub fn overwrite(self, overwrite: bool) -> (r: Self)
        ensures
            r == (PylonBuilder { overwrite: Some(overwrite), ..self }),
    {
        PylonBuilder { overwrite: Some(overwrite), ..self }
    }

    /// Builds the session, with both slots empty. Fails exactly when the
    /// application id was never set. URLs are not checked here: a relay URL
    /// that does not parse is reported by the first send or request.
    pub fn build<H, R>(self) -> (r: Result<Pylon<H, R>, PylonBuilderError>)
        ensures
            self.id is None <==> r is Err,
            r matches Err(e) ==> (e matches PylonBuilderError::UninitializedField(f) && f@ == "id"@),
            r matches Ok(p) ==> {
                &&& (self.id matches Some(id) && p.spec_id() == id@)
                &&& p.spec_relay_url() == match self.relay_url {
                    Some(u) => u@,
                    None => spec_default_relay_server(),
                }
                &&& p.spec_rendezvous_url() == match self.rendezvous_url {
                    Some(u) => u@,
                    None => spec_default_rendezvous_server(),
                }
                &&& p.spec_abilities() == match self.abilities {
                    Some(a) => a,
                    None => all_known_abilities(),
                }
                &&& p.spec_overwrite() == match self.overwrite {
                    Some(o) => o,
                    None => true,
                }
                &&& p.pending_handshake() is None
                &&& p.pending_request() is None
            },
    {
        let id = match self.id {
            None => {
                return Err(PylonBuilderError::UninitializedField("id"));
            },
            Some(id) => id,
        };
        let relay_url = match self.relay_url {
            Some(u) => u,
            None => default_relay_server(),
        };
        let rendezvous_url = match self.rendezvous_url {
            Some(u) => u,
            None => default_rendezvous_server(),
        };
        let abilities = match self.abilities {
            Some(a) => a,
            None => all_abilities(),
        };
        let overwrite = match self.overwrite {
            Some(o) => o,
            None => true,
        };
        Ok(Pylon::new(id, relay_url, rendezvous_url, abilities, overwrite))
    }
}

} // verus!
