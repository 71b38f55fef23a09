//! A module containing everything relating to a account returned from the api.
use vstd::prelude::*;
use crate::status_builder::Visibility;

verus! {

/// An extra object given from `verify_credentials` giving defaults about a user
#[derive(Debug, Clone)]
pub struct Source {
    /// The visibility that the statuses of the user have unless they say
    /// otherwise.
    pub privacy: Visibility,
    /// Whether the media of the user count as sensitive unless they say
    /// otherwise.
    pub sensitive: bool,
    /// The biography of the user, as they wrote it.
    pub note: String,
}

/// The changes to the credentials of an account.
#[derive(Debug, Clone, Copy)]
pub struct CredientialsBuilder<'a> {
    /// The new display name.
    pub display_name: Option<&'a str>,
    /// The new biography.
    pub note: Option<&'a str>,
    /// The path of the file that holds the new avatar.
    pub avatar: Option<&'a str>,
    /// The path of the file that holds the new header image.
    pub header: Option<&'a str>,
}

/// One field of a multipart form.
#[derive(Debug, Clone)]
pub enum FormField {
    /// A field that holds a text.
    Text {
        name: String,
        value: String,
    },
    /// A field that holds the contents of the file at a path.
    File {
        name: String,
        path: String,
    },
}

/// What a [`FormField`] stands for.
pub enum Field {
    Text { name: Seq<char>, value: Seq<char> },
    File { name: Seq<char>, path: Seq<char> },
}

impl View for FormField {
    type V = Field;

    open spec fn view(&self) -> Field {
        match self {
            FormField::Text { name, value } => Field::Text { name: name@, value: value@ },
            FormField::File { name, path } => Field::File { name: name@, path: path@ },
        }
    }
}

/// The fields that a list of form fields stands for.
pub open spec fn fields_of(form: Seq<FormField>) -> Seq<Field> {
    form.map_values(|f: FormField| f@)
}

/// The text field `name`, if it has a value.
pub open spec fn text_field(name: Seq<char>, value: Option<&str>) -> Seq<Field> {
    match value {
        Some(value) => seq![Field::Text { name, value: value@ }],
        None => Seq::empty(),
    }
}

/// The file field `name`, if it has a path.
pub open spec fn file_field(name: Seq<char>, path: Option<&str>) -> Seq<Field> {
    match path {
        Some(path) => seq![Field::File { name, path: path@ }],
        None => Seq::empty(),
    }
}

impl<'a> CredientialsBuilder<'a> {
    /// The fields of the form: each change that is set, under the name of
    /// its field, the two texts before the two files.
    pub open spec fn form(self) -> Seq<Field> {
        text_field("display_name"@, self.display_name) + text_field("note"@, self.note)
            + file_field("avatar"@, self.avatar) + file_field("header"@, self.header)
    }

    /// The multipart form that holds the changes, field by field. The files
    /// are named, not read.
    pub fn into_form(self) -> (form: Vec<FormField>)
        ensures
            fields_of(form@) == self.form(),
    {
        let mut form: Vec<FormField> = Vec::new();
        assert(fields_of(form@) =~= Seq::<Field>::empty());
        if let Some(value) = self.display_name {
            form.push(FormField::Text { name: "display_name".to_owned(), value: value.to_owned() });
        }
        assert(fields_of(form@) =~= text_field("display_name"@, self.display_name));
        if let Some(value) = self.note {
            form.push(FormField::Text { name: "note".to_owned(), value: value.to_owned() });
        }
        assert(fields_of(form@) =~= text_field("display_name"@, self.display_name) + text_field(
            "note"@,
            self.note,
        ));
        if let Some(path) = self.avatar {
            form.push(FormField::File { name: "avatar".to_owned(), path: path.to_owned() });
        }
        let ghost first = text_field("display_name"@, self.display_name) + text_field(
            "note"@,
            self.note,
        ) + file_field("avatar"@, self.avatar);
        assert(fields_of(form@) =~= first);
        if let Some(path) = self.header {
            form.push(FormField::File { name: "header".to_owned(), path: path.to_owned() });
        }
        assert(fields_of(form@) =~= first + file_field("header"@, self.header));
        form
    }
}

} // verus!
