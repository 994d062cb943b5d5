//! What a new or changed team is stamped with: its id and the time.

use vstd::prelude::*;
use vstd::string::StringExecFns;

verus! {

/// A lower-case hexadecimal digit.
pub open spec fn is_hex(c: char) -> bool {
    '0' <= c <= '9' || 'a' <= c <= 'f'
}

/// The text of a random UUID without hyphens: hexadecimal digits that hold the version
/// and the variant of a random UUID in their places.
pub open spec fn random_uuid(s: Seq<char>) -> bool {
    &&& s.len() == 32
    &&& forall|i: int| 0 <= i < s.len() ==> is_hex(#[trigger] s[i])
    &&& s[12] == '4'
    &&& s[16] == '8' || s[16] == '9' || s[16] == 'a' || s[16] == 'b'
}

/// `uuid::Uuid::new_v4`, written by `simple`. The digits are random but for the version
/// and the variant; two calls may give any two such texts, so nothing is said of how two
/// relate.
#[verifier::external_body]
fn new_uuid() -> (s: String)
    ensures
        random_uuid(s@),
{
    uuid::Uuid::new_v4().simple().to_string()
}

/// There is such a text.
pub proof fn some_uuid() -> (s: Seq<char>)
    ensures
        random_uuid(s),
{
    Seq::new(
        32,
        |i: int|
            if i == 12 {
                '4'
            } else if i == 16 {
                '8'
            } else {
                '0'
            },
    )
}

/// Decimal digits at each place from `from` to `to`.
pub open spec fn digits_at(s: Seq<char>, from: int, to: int) -> bool {
    forall|i: int| from <= i < to ==> '0' <= #[trigger] s[i] <= '9'
}

/// A year as RFC 3339 text starts with it: four digits, or a plus sign and more than four.
pub open spec fn year_at_start(s: Seq<char>, year: int) -> bool {
    ||| year == 4 && digits_at(s, 0, 4)
    ||| year > 5 && s[0] == '+' && digits_at(s, 1, year)
}

/// RFC 3339 text of a UTC time whose year takes up `year` characters.
pub open spec fn utc_time_with_year(s: Seq<char>, year: int) -> bool {
    let end = s.len() - 6;
    &&& year_at_start(s, year)
    &&& year + 15 <= end
    &&& s[year] == '-' && digits_at(s, year + 1, year + 3)
    &&& s[year + 3] == '-' && digits_at(s, year + 4, year + 6)
    &&& s[year + 6] == 'T' && digits_at(s, year + 7, year + 9)
    &&& s[year + 9] == ':' && digits_at(s, year + 10, year + 12)
    &&& s[year + 12] == ':' && digits_at(s, year + 13, year + 15)
    &&& end == year + 15 || ((end == year + 19 || end == year + 22 || end == year + 25)
        && s[year + 15] == '.' && digits_at(s, year + 16, end))
    &&& s.skip(end) == "+00:00"@
}

/// RFC 3339 text of a UTC time, to the second or with a fraction of it.
pub open spec fn utc_time(s: Seq<char>) -> bool {
    exists|year: int| utc_time_with_year(s, year)
}

/// `chrono::Utc::now`, written by `to_rfc3339`: the time of the call. Which time it is,
/// and how the times of two calls relate, is the machine's affair, and nothing is said
/// of it. The call panics on a machine whose clock stands before 1970.
#[verifier::external_body]
fn utc_now() -> (s: String)
    ensures
        utc_time(s@),
{
    chrono::Utc::now().to_rfc3339()
}

/// The time of the call, as it is stored.
pub fn now() -> (s: String)
    ensures
        utc_time(s@),
{
    utc_now()
}

/// There is such a text.
pub proof fn some_time() -> (s: Seq<char>)
    ensures
        utc_time(s),
{
    let s = "1970-01-01T00:00:00+00:00"@;
    reveal_strlit("1970-01-01T00:00:00+00:00");
    reveal_strlit("+00:00");
    assert(s.skip(19) =~= "+00:00"@);
    assert(utc_time_with_year(s, 4));
    s
}

/// The id of the team that was given this UUID.
pub open spec fn id_for(uuid: Seq<char>) -> Seq<char> {
    "team_"@ + uuid
}

/// The id of a team, from the text of its UUID.
pub fn team_id(uuid: &str) -> (id: String)
    ensures
        id@ == id_for(uuid@),
{
    "team_".to_owned().concat(uuid)
}

/// A new team id: `team_` and a random UUID.
pub fn new_team_id() -> (id: String)
    ensures
        exists|uuid: Seq<char>| random_uuid(uuid) && id@ == #[trigger] id_for(uuid),
{
    let uuid = new_uuid();
    team_id(uuid.as_str())
}

/// The id of a team is `team_` and its UUID, so teams with different UUIDs have different
/// ids.
pub proof fn law_ids_differ_as_uuids_do(a: Seq<char>, b: Seq<char>)
    ensures
        id_for(a) == "team_"@ + a,
        id_for(a) == id_for(b) ==> a == b,
{
    let prefix = "team_"@;
    assert(id_for(a).skip(prefix.len() as int) =~= a);
    assert(id_for(b).skip(prefix.len() as int) =~= b);
}

/// A UUID is written with thirty-two lower-case hexadecimal digits, and says that it is a
/// random one.
pub proof fn law_uuid_text(s: Seq<char>, i: int)
    requires
        random_uuid(s),
    ensures
        s.len() == 32,
        0 <= i < 32 ==> '0' <= s[i] <= '9' || 'a' <= s[i] <= 'f',
        s[12] == '4',
        s[16] == '8' || s[16] == '9' || s[16] == 'a' || s[16] == 'b',
{
    if 0 <= i < 32 {
        assert(is_hex(s[i]));
    }
}

/// A time is written to the second at least, and in UTC.
pub proof fn law_time_text(s: Seq<char>)
    requires
        utc_time(s),
    ensures
        s.len() >= 25,
        s.skip(s.len() - 6) == "+00:00"@,
{
}

} // verus!
