//! Cloud-init user data for new VMs.
use vstd::prelude::*;
use vstd::string::*;

use crate::text::views;

verus! {

/// The user data that creates the user `username` with password `password`,
/// with password SSH login and password-less sudo.
pub open spec fn userdata(username: Seq<char>, password: Seq<char>) -> Seq<char> {
    "#cloud-config\nssh_pwauth: true\nusers:\n  - name: "@ + username
        + "\n    shell: /usr/bin/bash\n    sudo: ALL=(ALL) NOPASSWD:ALL\n    plain_text_passwd: "@
        + password + "\n    lock_passwd: false\n"@
}

/// The cloud-init user data for one user.
pub fn userdata_content(username: &str, password: &str) -> (r: String)
    ensures
        r@ == userdata(username@, password@),
{
    let mut s = String::from_str("#cloud-config\nssh_pwauth: true\nusers:\n  - name: ");
    s.append(username);
    s.append(
        "\n    shell: /usr/bin/bash\n    sudo: ALL=(ALL) NOPASSWD:ALL\n    plain_text_passwd: ",
    );
    s.append(password);
    s.append("\n    lock_passwd: false\n");
    s
}

/// The cloud-init seed image of a VM.
pub struct Cloudinit;

/// The `xorriso` arguments that write the seed image `output` from the
/// user-data file `user_data` and the meta-data file `meta_data`.
pub open spec fn iso_args(output: Seq<char>, user_data: Seq<char>, meta_data: Seq<char>) -> Seq<
    Seq<char>,
> {
    seq![
        "-as"@,
        "genisoimage"@,
        "-output"@,
        output,
        "-volid"@,
        "CIDATA"@,
        "-joliet"@,
        "-quiet"@,
        "-rock"@,
        user_data,
        meta_data,
    ]
}

impl Cloudinit {
    /// The `xorriso` arguments that write the seed image (see `iso_args`).
    pub fn iso_args(output: &str, user_data: &str, meta_data: &str) -> (r: Vec<String>)
        ensures
            views(r@) == iso_args(output@, user_data@, meta_data@),
    {
        let mut v: Vec<String> = Vec::new();
        v.push(String::from_str("-as"));
        v.push(String::from_str("genisoimage"));
        v.push(String::from_str("-output"));
        v.push(String::from_str(output));
        v.push(String::from_str("-volid"));
        v.push(String::from_str("CIDATA"));
        v.push(String::from_str("-joliet"));
        v.push(String::from_str("-quiet"));
        v.push(String::from_str("-rock"));
        v.push(String::from_str(user_data));
        v.push(String::from_str(meta_data));
        assert(views(v@) =~= iso_args(output@, user_data@, meta_data@));
        v
    }

    /// The user data that creates one user (see `userdata`).
    pub fn user_data(username: &str, password: &str) -> (r: String)
        ensures
            r@ == userdata(username@, password@),
    {
        userdata_content(username, password)
    }
}

} // verus!
