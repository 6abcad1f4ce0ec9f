use vstd::prelude::*;
use crate::config::{Workspace, SetupError, has_dollar, expand_env};

verus! {

/// What an SSH key authentication needs: the user and the private key's path.
#[derive(Clone, Debug, PartialEq, Eq)]
pub struct SshKeyCredential {
    pub username: String,
    pub private_key_path: String,
}

/// Hands out SSH key credentials for the key path it was configured with.
pub struct CredentialProvider {
    pub ssh_key_path: String,
}

impl CredentialProvider {
    pub fn new(ssh_key_path: String) -> (r: CredentialProvider)
        ensures
            r.ssh_key_path == ssh_key_path,
    {
        CredentialProvider { ssh_key_path }
    }

    /// Builds the credential for `username` from the expanded key path
    /// (`Err` carries the name of the variable that could not be read).
    pub fn credential_from(username: Option<String>, expanded_key: Result<String, String>) -> (r:
        Result<SshKeyCredential, SetupError>)
        ensures
            (username is None || username->Some_0@.len() == 0) ==> r == Err::<
                SshKeyCredential,
                SetupError,
            >(SetupError::MissingUsername),
            (username is Some && username->Some_0@.len() > 0 && expanded_key is Ok) ==> r == Ok::<
                SshKeyCredential,
                SetupError,
            >(
                (SshKeyCredential {
                    username: username->Some_0,
                    private_key_path: expanded_key->Ok_0,
                }),
            ),
            (username is Some && username->Some_0@.len() > 0 && expanded_key is Err) ==> r == Err::<
                SshKeyCredential,
                SetupError,
            >(SetupError::SshKey { var_name: expanded_key->Err_0 }),
    {
        match username {
            None => Err(SetupError::MissingUsername),
            Some(user) => {
                if user.as_str().is_empty() {
                    Err(SetupError::MissingUsername)
                } else {
                    match expanded_key {
                        Ok(path) => Ok(SshKeyCredential { username: user, private_key_path: path }),
                        Err(var_name) => Err(SetupError::SshKey { var_name }),
                    }
                }
            },
        }
    }

    /// The credential for the user a remote asked for, with the key path
    /// expanded.
    pub fn get_credentials(&self, username: Option<String>) -> (r: Result<
        SshKeyCredential,
        SetupError,
    >)
        ensures
            (username is None || username->Some_0@.len() == 0) ==> r == Err::<
                SshKeyCredential,
                SetupError,
            >(SetupError::MissingUsername),
            r is Ok ==> r->Ok_0.username == username->Some_0,
            r is Err ==> (r->Err_0 is MissingUsername || (r->Err_0 is SshKey && has_dollar(
                self.ssh_key_path@,
            ))),
            (username is Some && username->Some_0@.len() > 0 && !has_dollar(self.ssh_key_path@))
                ==> (r is Ok && r->Ok_0.private_key_path@ == self.ssh_key_path@),
    {
        let expanded = expand_env(self.ssh_key_path.as_str());
        CredentialProvider::credential_from(username, expanded)
    }
}

impl Workspace {
    /// The credential provider for this workspace's key path.
    pub fn credential_provider(&self) -> (r: CredentialProvider)
        ensures
            r.ssh_key_path@ == self.ssh_key_path@,
    {
        CredentialProvider::new(self.ssh_key_path.clone())
    }
}

} // verus!
