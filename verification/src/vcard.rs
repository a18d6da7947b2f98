//! Serialization of a contact record into vCard 3.0 text.
//!
//! The line order is fixed: `BEGIN`/`VERSION`, the two name lines, then one
//! line per given optional field (mobile, work, email, company, role), the
//! address line when at least one address part is given, the website line,
//! and `END:VCARD` with no trailing newline. Reserved vCard characters are
//! deliberately left unescaped — a known limitation, kept because downstream
//! consumers of the QR symbols expect this exact wire format.
use crate::contact::{field_is_present, field_present, field_text, ContactData};
use vstd::prelude::*;

verus! {

/// One optional vCard line: `{prefix}{field}\n` when the field is given,
/// nothing at all when it is absent or empty.
pub open spec fn field_line(prefix: Seq<char>, field: Option<String>) -> Seq<char> {
    if field_present(field) {
        prefix + field->0@ + "\n"@
    } else {
        Seq::<char>::empty()
    }
}

/// The address line is emitted as soon as one of street, city, state is given.
pub open spec fn has_address(d: ContactData) -> bool {
    field_present(d.street) || field_present(d.city) || field_present(d.state)
}

/// The `ADR` line. Address parts that are absent still contribute their
/// (empty) segment, so the seven-segment vCard address structure is kept.
pub open spec fn adr_line(d: ContactData) -> Seq<char> {
    if has_address(d) {
        "ADR;TYPE=WORK:;;"@ + field_text(d.street) + ";"@ + field_text(d.city) + ";"@ + field_text(
            d.state,
        ) + ";;;\n"@
    } else {
        Seq::<char>::empty()
    }
}

/// The full vCard 3.0 text for a contact record.
pub open spec fn vcard_text(d: ContactData) -> Seq<char> {
    "BEGIN:VCARD\nVERSION:3.0\n"@ + "FN:"@ + d.first_name@ + " "@ + d.last_name@ + "\n"@ + "N:"@
        + d.last_name@ + ";"@ + d.first_name@ + ";;;\n"@ + field_line("TEL;TYPE=CELL:"@, d.mobile)
        + field_line("TEL;TYPE=WORK:"@, d.work) + field_line("EMAIL:"@, d.email) + field_line(
        "ORG:"@,
        d.company,
    ) + field_line("TITLE:"@, d.role) + adr_line(d) + field_line("URL:"@, d.website)
        + "END:VCARD"@
}

fn push_field_line(out: &mut String, prefix: &str, field: &Option<String>)
    ensures
        final (out)@ == old(out)@ + field_line(prefix@, *field),
{
    match field {
        Some(s) => {
            if s.unicode_len() > 0 {
                out.append(prefix);
                out.append(s.as_str());
                out.append("\n");
                assert(out@ =~= old(out)@ + field_line(prefix@, *field));
            } else {
                assert(out@ =~= old(out)@ + field_line(prefix@, *field));
            }
        },
        None => {
            assert(out@ =~= old(out)@ + field_line(prefix@, *field));
        },
    }
}

fn push_field_text(out: &mut String, field: &Option<String>)
    ensures
        final (out)@ == old(out)@ + field_text(*field),
{
    match field {
        Some(s) => {
            out.append(s.as_str());
        },
        None => {
            assert(out@ =~= old(out)@ + field_text(*field));
        },
    }
}

/// Serialize a contact record as vCard 3.0 text. Pure; never fails.
pub fn generate_vcard(data: &ContactData) -> (r: String)
    ensures
        r@ == vcard_text(*data),
{
    let mut vcard = String::new();
    vcard.append("BEGIN:VCARD\nVERSION:3.0\n");
    vcard.append("FN:");
    vcard.append(data.first_name.as_str());
    vcard.append(" ");
    vcard.append(data.last_name.as_str());
    vcard.append("\n");
    vcard.append("N:");
    vcard.append(data.last_name.as_str());
    vcard.append(";");
    vcard.append(data.first_name.as_str());
    vcard.append(";;;\n");
    push_field_line(&mut vcard, "TEL;TYPE=CELL:", &data.mobile);
    push_field_line(&mut vcard, "TEL;TYPE=WORK:", &data.work);
    push_field_line(&mut vcard, "EMAIL:", &data.email);
    push_field_line(&mut vcard, "ORG:", &data.company);
    push_field_line(&mut vcard, "TITLE:", &data.role);
    let ghost before_adr = vcard@;
    let has_addr = field_is_present(&data.street) || field_is_present(&data.city)
        || field_is_present(&data.state);
    if has_addr {
        vcard.append("ADR;TYPE=WORK:;;");
        push_field_text(&mut vcard, &data.street);
        vcard.append(";");
        push_field_text(&mut vcard, &data.city);
        vcard.append(";");
        push_field_text(&mut vcard, &data.state);
        vcard.append(";;;\n");
    }
    proof {
        assert(vcard@ =~= before_adr + adr_line(*data));
    }
    push_field_line(&mut vcard, "URL:", &data.website);
    vcard.append("END:VCARD");
    proof {
        assert(vcard@ =~= vcard_text(*data));
    }
    vcard
}

/// When every optional field is absent or empty, the vCard text is exactly
/// the begin/version header, the two name lines, and the end marker.
pub proof fn lemma_minimal_vcard(d: ContactData)
    requires
        !field_present(d.mobile),
        !field_present(d.work),
        !field_present(d.email),
        !field_present(d.company),
        !field_present(d.role),
        !field_present(d.street),
        !field_present(d.city),
        !field_present(d.state),
        !field_present(d.website),
    ensures
        vcard_text(d) == "BEGIN:VCARD\nVERSION:3.0\nFN:"@ + d.first_name@ + " "@ + d.last_name@
            + "\nN:"@ + d.last_name@ + ";"@ + d.first_name@ + ";;;\nEND:VCARD"@,
{
    reveal_strlit("BEGIN:VCARD\nVERSION:3.0\n");
    reveal_strlit("FN:");
    reveal_strlit(" ");
    reveal_strlit("\n");
    reveal_strlit("N:");
    reveal_strlit(";");
    reveal_strlit(";;;\n");
    reveal_strlit("END:VCARD");
    reveal_strlit("BEGIN:VCARD\nVERSION:3.0\nFN:");
    reveal_strlit("\nN:");
    reveal_strlit(";;;\nEND:VCARD");
    assert(vcard_text(d) =~= "BEGIN:VCARD\nVERSION:3.0\nFN:"@ + d.first_name@ + " "@
        + d.last_name@ + "\nN:"@ + d.last_name@ + ";"@ + d.first_name@ + ";;;\nEND:VCARD"@);
}

/// Setting an optional field to `None` and setting it to the empty string
/// produce byte-identical vCard text: only the names and the effective
/// (non-empty) field texts determine the output.
pub proof fn lemma_empty_field_equals_absent(d1: ContactData, d2: ContactData)
    requires
        d1.first_name@ == d2.first_name@,
        d1.last_name@ == d2.last_name@,
        crate::contact::fields_equivalent(d1.mobile, d2.mobile),
        crate::contact::fields_equivalent(d1.work, d2.work),
        crate::contact::fields_equivalent(d1.email, d2.email),
        crate::contact::fields_equivalent(d1.company, d2.company),
        crate::contact::fields_equivalent(d1.role, d2.role),
        crate::contact::fields_equivalent(d1.street, d2.street),
        crate::contact::fields_equivalent(d1.city, d2.city),
        crate::contact::fields_equivalent(d1.state, d2.state),
        crate::contact::fields_equivalent(d1.website, d2.website),
    ensures
        vcard_text(d1) == vcard_text(d2),
{
    assert(field_text(d1.street) =~= field_text(d2.street));
    assert(field_text(d1.city) =~= field_text(d2.city));
    assert(field_text(d1.state) =~= field_text(d2.state));
    assert(field_line("TEL;TYPE=CELL:"@, d1.mobile) =~= field_line("TEL;TYPE=CELL:"@, d2.mobile));
    assert(field_line("TEL;TYPE=WORK:"@, d1.work) =~= field_line("TEL;TYPE=WORK:"@, d2.work));
    assert(field_line("EMAIL:"@, d1.email) =~= field_line("EMAIL:"@, d2.email));
    assert(field_line("ORG:"@, d1.company) =~= field_line("ORG:"@, d2.company));
    assert(field_line("TITLE:"@, d1.role) =~= field_line("TITLE:"@, d2.role));
    assert(field_line("URL:"@, d1.website) =~= field_line("URL:"@, d2.website));
    assert(adr_line(d1) =~= adr_line(d2));
    assert(vcard_text(d1) =~= vcard_text(d2));
}

/// When street is the only given address part, the `ADR` line still holds
/// all seven segments, the others empty.
pub proof fn lemma_adr_street_only(d: ContactData)
    requires
        field_present(d.street),
        !field_present(d.city),
        !field_present(d.state),
    ensures
        adr_line(d) == "ADR;TYPE=WORK:;;"@ + field_text(d.street) + ";;;;;\n"@,
{
    reveal_strlit("ADR;TYPE=WORK:;;");
    reveal_strlit(";");
    reveal_strlit(";;;\n");
    reveal_strlit(";;;;;\n");
    assert(field_text(d.city) =~= Seq::<char>::empty());
    assert(field_text(d.state) =~= Seq::<char>::empty());
    assert(adr_line(d) =~= "ADR;TYPE=WORK:;;"@ + field_text(d.street) + ";;;;;\n"@);
}

/// When city is the only given address part, the `ADR` line still holds
/// all seven segments, the others empty.
pub proof fn lemma_adr_city_only(d: ContactData)
    requires
        !field_present(d.street),
        field_present(d.city),
        !field_present(d.state),
    ensures
        adr_line(d) == "ADR;TYPE=WORK:;;;"@ + field_text(d.city) + ";;;;\n"@,
{
    reveal_strlit("ADR;TYPE=WORK:;;");
    reveal_strlit("ADR;TYPE=WORK:;;;");
    reveal_strlit(";");
    reveal_strlit(";;;\n");
    reveal_strlit(";;;;\n");
    assert(field_text(d.street) =~= Seq::<char>::empty());
    assert(field_text(d.state) =~= Seq::<char>::empty());
    assert(adr_line(d) =~= "ADR;TYPE=WORK:;;;"@ + field_text(d.city) + ";;;;\n"@);
}

/// When state is the only given address part, the `ADR` line still holds
/// all seven segments, the others empty.
pub proof fn lemma_adr_state_only(d: ContactData)
    requires
        !field_present(d.street),
        !field_present(d.city),
        field_present(d.state),
    ensures
        adr_line(d) == "ADR;TYPE=WORK:;;;;"@ + field_text(d.state) + ";;;\n"@,
{
    reveal_strlit("ADR;TYPE=WORK:;;");
    reveal_strlit("ADR;TYPE=WORK:;;;;");
    reveal_strlit(";");
    reveal_strlit(";;;\n");
    assert(field_text(d.street) =~= Seq::<char>::empty());
    assert(field_text(d.city) =~= Seq::<char>::empty());
    assert(adr_line(d) =~= "ADR;TYPE=WORK:;;;;"@ + field_text(d.state) + ";;;\n"@);
}

} // verus!
