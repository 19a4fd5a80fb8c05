use vstd::prelude::*;
use vstd::string::*;

use protobuf::descriptor::FileDescriptorSet;
use protobuf::reflect::{FieldDescriptor, FileDescriptor, MessageDescriptor};
use protobuf::Message;

verus! {

#[verifier::external_type_specification]
#[verifier::external_body]
pub struct ExFileDescriptorSet(FileDescriptorSet);

#[verifier::external_type_specification]
#[verifier::external_body]
pub struct ExFileDescriptor(FileDescriptor);

#[verifier::external_type_specification]
#[verifier::external_body]
pub struct ExMessageDescriptor(MessageDescriptor);

#[verifier::external_type_specification]
#[verifier::external_body]
pub struct ExFieldDescriptor(FieldDescriptor);

#[verifier::external_type_specification]
#[verifier::external_body]
pub struct ExProtobufError(protobuf::Error);

/// Why a still-image schema could not be resolved.
#[derive(Debug, Clone, Copy, PartialEq, Eq, Structural)]
pub enum SchemaError {
    /// The schema bytes are not a valid serialized descriptor set.
    SchemaParse,
    /// No file of the set defines the still-image message type.
    TypeNotFound,
    /// The still-image message type lacks one of the fields that are read.
    FieldMissing,
}

/// Whether `bytes` decode as a `google.protobuf.FileDescriptorSet`.
pub uninterp spec fn parses_as_descriptor_set(bytes: Seq<u8>) -> bool;

/// Relies on protobuf's `Message::parse_from_bytes` for `FileDescriptorSet`:
/// whether it succeeds depends on the bytes alone.
#[verifier::external_body]
fn parse_descriptor_set(bytes: &[u8]) -> (r: Result<FileDescriptorSet, protobuf::Error>)
    ensures
        r is Ok == parses_as_descriptor_set(bytes@),
{
    FileDescriptorSet::parse_from_bytes(bytes)
}

/// Relies on protobuf's `FileDescriptor::package` (empty when unset).
#[verifier::external_body]
fn file_package(file: &FileDescriptor) -> (r: String) {
    file.package().to_string()
}

/// Relies on protobuf's `FileDescriptor::messages`: the top-level messages of
/// one file.
#[verifier::external_body]
fn top_level_messages(file: &FileDescriptor) -> (r: Vec<MessageDescriptor>) {
    file.messages().collect()
}

/// Relies on protobuf's `MessageDescriptor::name`: the name within its scope.
#[verifier::external_body]
fn message_name(message: &MessageDescriptor) -> (r: String) {
    message.name().to_string()
}

/// Relies on protobuf's `MessageDescriptor::fields` and `FieldDescriptor::name`.
#[verifier::external_body]
fn field_names(message: &MessageDescriptor) -> (r: Vec<String>) {
    message.fields().map(|f| f.name().to_string()).collect()
}

/// Relies on protobuf's `MessageDescriptor::field_by_name`.
#[verifier::external_body]
fn field_in_message(message: &MessageDescriptor, name: &str) -> (r: Option<FieldDescriptor>) {
    message.field_by_name(name)
}

/// Fully qualified name of the still-image message, without the leading dot.
pub open spec fn still_image_full_name() -> Seq<char> {
    "foxglove.CompressedImage"@
}

/// Fully qualified name of a top-level message `name` of package `package`.
pub open spec fn qualified_name(package: Seq<char>, name: Seq<char>) -> Seq<char> {
    if package.len() == 0 { name } else { package + "."@ + name }
}

/// Computes `qualified_name(package@, name@)`.
pub fn qualify(package: &String, name: &String) -> (r: String)
    ensures
        r@ == qualified_name(package@, name@),
{
    if package.as_str().unicode_len() == 0 {
        return name.clone();
    }
    let mut r = package.clone();
    r.append(".");
    r.append(name.as_str());
    r
}

/// A message type as the resolver sees it: its full name and field names.
pub struct MessageShape {
    pub full_name: String,
    pub fields: Vec<String>,
}

pub open spec fn shape_name(shapes: Seq<MessageShape>, i: int) -> Seq<char> {
    shapes[i].full_name@
}

pub open spec fn shape_has_field(shapes: Seq<MessageShape>, i: int, name: Seq<char>) -> bool {
    exists|k: int| 0 <= k < shapes[i].fields@.len() && #[trigger] shapes[i].fields@[k]@ == name
}

/// Whether message `i` has every field that is read from a still image.
pub open spec fn has_image_fields(shapes: Seq<MessageShape>, i: int) -> bool {
    &&& shape_has_field(shapes, i, "timestamp"@)
    &&& shape_has_field(shapes, i, "frame_id"@)
    &&& shape_has_field(shapes, i, "data"@)
}

/// Whether `i` is the first message named as the still image.
pub open spec fn first_still_image(shapes: Seq<MessageShape>, i: int) -> bool {
    &&& 0 <= i < shapes.len()
    &&& shape_name(shapes, i) == still_image_full_name()
    &&& forall|j: int| 0 <= j < i ==> shape_name(shapes, j) != still_image_full_name()
}

fn contains_name(names: &Vec<String>, name: &str) -> (r: bool)
    ensures
        r == exists|k: int| 0 <= k < names@.len() && #[trigger] names@[k]@ == name@,
{
    let target = String::from_str(name);
    let mut k: usize = 0;
    while k < names.len()
        invariant
            k <= names@.len(),
            target@ == name@,
            forall|j: int| 0 <= j < k ==> names@[j]@ != name@,
        decreases names@.len() - k,
    {
        if names[k] == target {
            return true;
        }
        k = k + 1;
    }
    false
}

/// Finds the still-image message among `shapes` by its full name: the first
/// one so named is taken. No such message gives `TypeNotFound`; one that
/// lacks `timestamp`, `frame_id` or `data` gives `FieldMissing`.
pub fn locate_still_image(shapes: &Vec<MessageShape>) -> (r: Result<usize, SchemaError>)
    ensures
        match r {
            Ok(i) => first_still_image(shapes@, i as int) && has_image_fields(shapes@, i as int),
            Err(SchemaError::TypeNotFound) => forall|j: int|
                0 <= j < shapes@.len() ==> shape_name(shapes@, j) != still_image_full_name(),
            Err(SchemaError::FieldMissing) => exists|i: int|
                first_still_image(shapes@, i) && !has_image_fields(shapes@, i),
            Err(SchemaError::SchemaParse) => false,
        },
{
    let target = String::from_str("foxglove.CompressedImage");
    let mut i: usize = 0;
    while i < shapes.len()
        invariant
            i <= shapes@.len(),
            target@ == still_image_full_name(),
            forall|j: int| 0 <= j < i ==> shape_name(shapes@, j) != still_image_full_name(),
        decreases shapes@.len() - i,
    {
        if shapes[i].full_name == target {
            let fields = &shapes[i].fields;
            let t = contains_name(fields, "timestamp");
            let f = contains_name(fields, "frame_id");
            let d = contains_name(fields, "data");
            if t && f && d {
                return Ok(i);
            }
            assert(first_still_image(shapes@, i as int));
            return Err(SchemaError::FieldMissing);
        }
        i = i + 1;
    }
    Err(SchemaError::TypeNotFound)
}

/// Decodes a channel's schema bytes as a descriptor set; bytes that are not
/// one give `SchemaParse`, and only those.
pub fn parse_schema(schema_data: &[u8]) -> (r: Result<FileDescriptorSet, SchemaError>)
    ensures
        r is Ok <==> parses_as_descriptor_set(schema_data@),
        r is Err ==> r->Err_0 == SchemaError::SchemaParse,
{
    match parse_descriptor_set(schema_data) {
        Ok(set) => Ok(set),
        Err(_) => Err(SchemaError::SchemaParse),
    }
}

/// The still-image message type with the three fields that are read from it.
pub struct ImageSchema {
    pub message: MessageDescriptor,
    pub timestamp: FieldDescriptor,
    pub frame_id: FieldDescriptor,
    pub data: FieldDescriptor,
}

/// Resolves the still-image message type among the top-level messages of
/// `files`, which were built from a channel's schema: the lookup is by full
/// name across every file, as `locate_still_image` states for the names and
/// fields found there.
pub fn resolve_image_schema(files: &Vec<FileDescriptor>) -> (r: Result<ImageSchema, SchemaError>)
    ensures
        r is Err ==> r->Err_0 != SchemaError::SchemaParse,
{
    let mut messages: Vec<MessageDescriptor> = Vec::new();
    let mut shapes: Vec<MessageShape> = Vec::new();
    let mut i: usize = 0;
    while i < files.len()
        invariant
            i <= files@.len(),
            messages@.len() == shapes@.len(),
        decreases files@.len() - i,
    {
        let package = file_package(&files[i]);
        let mut in_file = top_level_messages(&files[i]);
        while in_file.len() > 0
            invariant
                messages@.len() == shapes@.len(),
            decreases in_file@.len(),
        {
            let m = in_file.remove(0);
            let name = message_name(&m);
            let full_name = qualify(&package, &name);
            let fields = field_names(&m);
            shapes.push(MessageShape { full_name, fields });
            messages.push(m);
        }
        i = i + 1;
    }
    let found = match locate_still_image(&shapes) {
        Ok(found) => found,
        Err(e) => {
            return Err(e);
        },
    };
    let message = messages.remove(found);
    let timestamp = match field_in_message(&message, "timestamp") {
        Some(f) => f,
        None => {
            return Err(SchemaError::FieldMissing);
        },
    };
    let frame_id = match field_in_message(&message, "frame_id") {
        Some(f) => f,
        None => {
            return Err(SchemaError::FieldMissing);
        },
    };
    let data = match field_in_message(&message, "data") {
        Some(f) => f,
        None => {
            return Err(SchemaError::FieldMissing);
        },
    };
    Ok(ImageSchema { message, timestamp, frame_id, data })
}

} // verus!
