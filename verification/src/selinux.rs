//! Security labels of the files that back a partition, and the rule that says which
//! of them may back a virtual machine.
//!
//! A label has the form `user:role:type:sensitivity[:categories]`. Only its type
//! decides: code may come from places that neither apps nor the system can write to.

use crate::error::ErrorKind;
use crate::text::{starts_with, str_eq, to_chars};
use vstd::prelude::*;

verus! {

/// Why a label was turned down.
#[derive(Clone, Copy, Debug, PartialEq, Eq, Structural)]
pub enum LabelError {
    /// The label holds a NUL character, so it cannot name a security context.
    InteriorNul,
    /// The label does not have four or five fields.
    Syntax,
    /// The label is well formed, and its type is not one of the allowed ones.
    NotAllowed,
}

/// The fields of `s`, which `sep` separates: one field more than `s` holds separators,
/// in order, each without a separator in it.
pub open spec fn split(s: Seq<char>, sep: char) -> Seq<Seq<char>>
    decreases s.len(),
{
    if s.len() == 0 {
        seq![Seq::<char>::empty()]
    } else {
        let before = split(s.drop_last(), sep);
        if s.last() == sep {
            before.push(Seq::<char>::empty())
        } else {
            before.drop_last().push(before.last().push(s.last()))
        }
    }
}

/// The type of a label: its third field, where the label has four or five fields.
pub open spec fn selinux_type_of(label: Seq<char>) -> Option<Seq<char>> {
    let fields = split(label, ':');
    if 4 <= fields.len() <= 5 {
        Some(fields[2])
    } else {
        None
    }
}

/// The types from which the code of a virtual machine may come: the immutable system
/// image, the package of an installed app, a staged update, and files that the test
/// shell created.
pub open spec fn is_allowed_type(ty: Seq<char>) -> bool {
    ||| ty == "system_file"@
    ||| ty == "apk_data_file"@
    ||| ty == "staging_data_file"@
    ||| ty == "shell_data_file"@
}

/// What the check says of a label.
pub open spec fn label_verdict(label: Seq<char>) -> Result<(), LabelError> {
    match selinux_type_of(label) {
        None => Err(LabelError::Syntax),
        Some(ty) => if is_allowed_type(ty) {
            Ok(())
        } else {
            Err(LabelError::NotAllowed)
        },
    }
}

/// Whether a backing file may be used, given the label that was read from it (`None`
/// where no label could be read).
pub open spec fn origin_is_trusted(file_label: Option<Seq<char>>) -> bool {
    match file_label {
        None => false,
        Some(label) => !label.contains('\0') && label_verdict(label) is Ok,
    }
}

/// Whether a partition with this name is generated by the service itself, holds no
/// code, and so needs no check of its origin.
pub open spec fn safe_app_partition(label: Seq<char>) -> bool {
    ||| label == "vm-instance"@
    ||| label == "microdroid-apk-idsig"@
    ||| label == "payload-metadata"@
    ||| "extra-idsig-"@.is_prefix_of(label)
}

/// A text always has at least one field.
pub proof fn lemma_split_nonempty(s: Seq<char>, sep: char)
    ensures
        split(s, sep).len() >= 1,
    decreases s.len(),
{
    if s.len() > 0 {
        lemma_split_nonempty(s.drop_last(), sep);
    }
}

/// Characters other than the separator lengthen the last field and leave the others.
pub proof fn lemma_split_extend(s: Seq<char>, t: Seq<char>, sep: char)
    requires
        !t.contains(sep),
    ensures
        split(s + t, sep) == split(s, sep).drop_last().push(split(s, sep).last() + t),
    decreases t.len(),
{
    lemma_split_nonempty(s, sep);
    let fields = split(s, sep);
    if t.len() == 0 {
        assert(s + t =~= s);
        assert(fields.last() + t =~= fields.last());
        assert(fields.drop_last().push(fields.last()) =~= fields);
    } else {
        let shorter = t.drop_last();
        assert forall|i: int| 0 <= i < shorter.len() implies shorter[i] != sep by {
            assert(t[i] == shorter[i]);
            assert(t.contains(t[i]));
        }
        assert(!shorter.contains(sep));
        lemma_split_extend(s, shorter, sep);
        assert((s + t).drop_last() =~= s + shorter);
        assert((s + t).last() == t.last());
        assert(t.contains(t.last()));
        let before = split(s + shorter, sep);
        assert(before.drop_last() =~= fields.drop_last());
        assert(before.last().push(t.last()) =~= fields.last() + t);
    }
}

/// A separator closes the last field and opens an empty one.
pub proof fn lemma_split_separator(s: Seq<char>, sep: char)
    ensures
        split(s.push(sep), sep) == split(s, sep).push(Seq::<char>::empty()),
{
    assert(s.push(sep).drop_last() =~= s);
}

/// A text without a separator is one field.
pub proof fn lemma_split_one_field(field: Seq<char>, sep: char)
    requires
        !field.contains(sep),
    ensures
        split(field, sep) == seq![field],
{
    let e = Seq::<char>::empty();
    lemma_split_extend(e, field, sep);
    assert(e + field =~= field);
    assert(split(e, sep).drop_last().push(split(e, sep).last() + field) =~= seq![field]);
}

/// A separator and a text without one add that text as one more field.
pub proof fn lemma_split_add_field(s: Seq<char>, field: Seq<char>, sep: char)
    requires
        !field.contains(sep),
    ensures
        split(s + seq![sep] + field, sep) == split(s, sep).push(field),
{
    let e = Seq::<char>::empty();
    lemma_split_separator(s, sep);
    lemma_split_extend(s.push(sep), field, sep);
    assert(s + seq![sep] =~= s.push(sep));
    assert(e + field =~= field);
    assert(split(s, sep).push(e).drop_last() =~= split(s, sep));
}

/// A user, a role, a type and a sensitivity, none of which holds a colon, are the
/// four fields of the label that joins them by colons.
pub proof fn lemma_four_fields(
    user: Seq<char>,
    role: Seq<char>,
    ty: Seq<char>,
    sensitivity: Seq<char>,
)
    requires
        !user.contains(':'),
        !role.contains(':'),
        !ty.contains(':'),
        !sensitivity.contains(':'),
    ensures
        split(user + seq![':'] + role + seq![':'] + ty + seq![':'] + sensitivity, ':') == seq![
            user,
            role,
            ty,
            sensitivity,
        ],
{
    lemma_split_one_field(user, ':');
    lemma_split_add_field(user, role, ':');
    lemma_split_add_field(user + seq![':'] + role, ty, ':');
    lemma_split_add_field(user + seq![':'] + role + seq![':'] + ty, sensitivity, ':');
    assert(seq![user].push(role).push(ty).push(sensitivity) =~= seq![
        user,
        role,
        ty,
        sensitivity,
    ]);
}

/// A label made of a user, a role, a type and a sensitivity, none of which holds a
/// colon, is accepted exactly when its type is one of the allowed ones, whatever the
/// user, the role and the sensitivity are.
pub proof fn lemma_type_decides(
    user: Seq<char>,
    role: Seq<char>,
    ty: Seq<char>,
    sensitivity: Seq<char>,
)
    requires
        !user.contains(':'),
        !role.contains(':'),
        !ty.contains(':'),
        !sensitivity.contains(':'),
    ensures
        selinux_type_of(user + seq![':'] + role + seq![':'] + ty + seq![':'] + sensitivity)
            == Some(ty),
        label_verdict(user + seq![':'] + role + seq![':'] + ty + seq![':'] + sensitivity) is Ok
            <==> is_allowed_type(ty),
{
    lemma_four_fields(user, role, ty, sensitivity);
}

/// The same holds of a label that names categories after the sensitivity: its type
/// alone decides, whatever the other four fields are.
pub proof fn lemma_type_decides_with_categories(
    user: Seq<char>,
    role: Seq<char>,
    ty: Seq<char>,
    sensitivity: Seq<char>,
    categories: Seq<char>,
)
    requires
        !user.contains(':'),
        !role.contains(':'),
        !ty.contains(':'),
        !sensitivity.contains(':'),
        !categories.contains(':'),
    ensures
        selinux_type_of(
            user + seq![':'] + role + seq![':'] + ty + seq![':'] + sensitivity + seq![':']
                + categories,
        ) == Some(ty),
        label_verdict(
            user + seq![':'] + role + seq![':'] + ty + seq![':'] + sensitivity + seq![':']
                + categories,
        ) is Ok <==> is_allowed_type(ty),
{
    lemma_four_fields(user, role, ty, sensitivity);
    lemma_split_add_field(
        user + seq![':'] + role + seq![':'] + ty + seq![':'] + sensitivity,
        categories,
        ':',
    );
}

/// The security context of a file.
pub struct SeContext {
    label: String,
}

impl View for SeContext {
    type V = Seq<char>;

    /// The label, character by character.
    closed spec fn view(&self) -> Seq<char> {
        self.label@
    }
}

impl SeContext {
    /// Makes a context of `label`, which has to be free of NUL characters.
    pub fn new(label: &str) -> (r: Result<SeContext, LabelError>)
        ensures
            match r {
                Ok(ctx) => ctx@ == label@ && !label@.contains('\0'),
                Err(e) => e == LabelError::InteriorNul && label@.contains('\0'),
            },
    {
        let chars = to_chars(label);
        let mut i: usize = 0;
        while i < chars.len()
            invariant
                i <= chars.len(),
                chars@ == label@,
                forall|j: int| 0 <= j < i ==> chars@[j] != '\0',
            decreases chars.len() - i,
        {
            if chars[i] == '\0' {
                assert(label@[i as int] == '\0');
                return Err(LabelError::InteriorNul);
            }
            i += 1;
        }
        Ok(SeContext { label: String::from_str(label) })
    }

    /// The label as text.
    pub fn to_string(&self) -> (s: String)
        ensures
            s@ == self@,
    {
        self.label.clone()
    }

    /// The type of the label, or `Syntax` where the label has fewer than four fields
    /// or more than five.
    pub fn selinux_type(&self) -> (r: Result<&str, LabelError>)
        ensures
            match r {
                Ok(ty) => selinux_type_of(self@) == Some(ty@),
                Err(e) => e == LabelError::Syntax && selinux_type_of(self@) is None,
            },
    {
        let text: &str = self.label.as_str();
        let chars = to_chars(text);
        let mut separators: usize = 0;
        let mut start: usize = 0;
        let mut end: usize = 0;
        let mut i: usize = 0;
        proof {
            assert(chars@.take(0) =~= Seq::<char>::empty());
        }
        while i < chars.len()
            invariant
                i <= chars.len(),
                chars@ == text@,
                separators <= i,
                split(chars@.take(i as int), ':').len() == separators + 1,
                separators == 2 ==> start <= i && split(chars@.take(i as int), ':')[2]
                    == chars@.subrange(start as int, i as int),
                separators >= 3 ==> start <= end <= i && split(chars@.take(i as int), ':')[2]
                    == chars@.subrange(start as int, end as int),
            decreases chars.len() - i,
        {
            let ghost before = split(chars@.take(i as int), ':');
            proof {
                assert(chars@.take(i + 1).drop_last() =~= chars@.take(i as int));
                assert(chars@.take(i + 1).last() == chars@[i as int]);
            }
            if chars[i] == ':' {
                if separators == 1 {
                    start = i + 1;
                    assert(chars@.subrange(i + 1, i + 1) =~= Seq::<char>::empty());
                } else if separators == 2 {
                    end = i;
                }
                separators += 1;
            } else {
                proof {
                    if separators == 2 {
                        assert(before[2].push(chars@[i as int]) =~= chars@.subrange(
                            start as int,
                            i + 1,
                        ));
                    }
                }
            }
            i += 1;
        }
        proof {
            assert(chars@.take(i as int) =~= chars@);
        }
        if separators < 3 || separators > 4 {
            return Err(LabelError::Syntax);
        }
        Ok(text.substring_char(start, end))
    }
}

/// Checks that the label names one of the places from which the code of a virtual
/// machine may come.
pub fn check_label_is_allowed(ctx: &SeContext) -> (r: Result<(), LabelError>)
    ensures
        r == label_verdict(ctx@),
{
    let ty: &str = match ctx.selinux_type() {
        Ok(ty) => ty,
        Err(_) => {
            return Err(LabelError::Syntax);
        },
    };
    if str_eq(ty, "system_file") || str_eq(ty, "apk_data_file") || str_eq(ty, "staging_data_file")
        || str_eq(ty, "shell_data_file") {
        Ok(())
    } else {
        Err(LabelError::NotAllowed)
    }
}

/// Decides whether a partition may be used, from the label that was read from its
/// backing file; `None` stands for a file whose label could not be read.
pub fn check_label_for_partition(file_label: Option<&str>) -> (r: Result<(), ErrorKind>)
    ensures
        r is Ok <==> origin_is_trusted(
            match file_label {
                Some(label) => Some(label@),
                None => None,
            },
        ),
        r is Err ==> r == Err::<(), ErrorKind>(ErrorKind::UntrustedOrigin),
{
    let label: &str = match file_label {
        Some(label) => label,
        None => {
            return Err(ErrorKind::UntrustedOrigin);
        },
    };
    let ctx = match SeContext::new(label) {
        Ok(ctx) => ctx,
        Err(_) => {
            return Err(ErrorKind::UntrustedOrigin);
        },
    };
    match check_label_is_allowed(&ctx) {
        Ok(()) => Ok(()),
        Err(_) => Err(ErrorKind::UntrustedOrigin),
    }
}

/// Whether a partition of an app's virtual machine is exempt from the check of its
/// origin: such a partition holds no code and is generated where apps can write.
pub fn is_safe_app_partition(label: &str) -> (r: bool)
    ensures
        r == safe_app_partition(label@),
{
    str_eq(label, "vm-instance") || str_eq(label, "microdroid-apk-idsig") || str_eq(
        label,
        "payload-metadata",
    ) || starts_with(label, "extra-idsig-")
}

} // verus!
