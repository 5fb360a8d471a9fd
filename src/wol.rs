use vstd::prelude::*;

verus! {

/// The six bytes of the MAC address that `s` writes, if it writes one.
pub uninterp spec fn mac_of(s: Seq<char>) -> Option<Seq<u8>>;

/// Relies on `wol::MacAddr::from_str` (which hands the text to eui48's
/// parser): the six bytes of the address, or an error for any other text.
#[verifier::external_body]
fn parse_mac(s: &str) -> (r: Option<Vec<u8>>)
    ensures
        match r {
            Some(v) => mac_of(s@) == Some(v@) && v@.len() == 6,
            None => mac_of(s@) is None,
        },
{
    <wol::MacAddr as core::str::FromStr>::from_str(s).ok().map(|m| m.0.to_vec())
}

/// Text of the error for a MAC address that does not parse.
pub open spec fn invalid_mac_text() -> Seq<char> {
    "Invalid mac address"@
}

/// What `send` returns for `mac` in a dry run or not.
pub open spec fn sent_as(mac: Seq<char>, dry_run: bool, r: Result<Option<Vec<u8>>, String>) -> bool {
    &&& r is Err <==> mac_of(mac) is None
    &&& r matches Err(e) ==> e@ == invalid_mac_text()
    &&& r matches Ok(p) ==> (p is None <==> dry_run)
    &&& r matches Ok(Some(b)) ==> mac_of(mac) == Some(b@) && b@.len() == 6
}

/// What to do with a parsed MAC address (`None` when it did not parse):
/// the error for a bad address; otherwise the address bytes for the
/// magic packet, or `None` in a dry run, where nothing is to be sent.
pub fn wake_packet(parsed: Option<Vec<u8>>, dry_run: bool) -> (r: Result<Option<Vec<u8>>, String>)
    ensures
        parsed is None ==> (r matches Err(e) && e@ == invalid_mac_text()),
        parsed matches Some(b) ==> r == if dry_run {
            Ok::<Option<Vec<u8>>, String>(None)
        } else {
            Ok(Some(b))
        },
{
    match parsed {
        None => {
            proof {
                reveal_strlit("Invalid mac address");
            }
            Err(String::from_str("Invalid mac address"))
        },
        Some(bytes) => {
            if dry_run {
                Ok(None)
            } else {
                Ok(Some(bytes))
            }
        },
    }
}

/// Prepares a wake-on-LAN for `mac_addr`. Fails when the address does not
/// parse; otherwise returns the address bytes that the magic packet must
/// carry, or `None` in a dry run, where nothing is to be sent.
pub fn send(mac_addr: &str, dry_run: bool) -> (r: Result<Option<Vec<u8>>, String>)
    ensures
        sent_as(mac_addr@, dry_run, r),
{
    wake_packet(parse_mac(mac_addr), dry_run)
}

} // verus!
