use form_fields::fields::file_field::{FileField, PostValidator, UploadedFile};
use form_fields::fields::AbstractFields;
use form_fields::forms::{Files, FormData};

use tokio::io::AsyncWriteExt;

fn descriptor(filename: &str, temp_path: &str) -> form_fields::forms::FileField {
    form_fields::forms::FileField::new(filename.to_string(), temp_path.to_string())
}

#[test]
fn test_file_optional() {
    let mut form_data = FormData::new();
    let mut files = Files::new();

    let mut file_field: FileField<Option<UploadedFile>> = FileField::new("file");
    let result = file_field.validate(&mut form_data, &mut files);

    assert_eq!(true, result.is_ok());
}

#[test]
fn test_file_empty() {
    let mut form_data = FormData::new();
    let mut files = Files::new();

    let mut file_field: FileField<UploadedFile> = FileField::new("file");
    let result = file_field.validate(&mut form_data, &mut files);

    assert_eq!(false, result.is_ok());
}

#[test]
fn test_file_validate() {
    let runtime = tokio::runtime::Builder::new_current_thread()
        .enable_all()
        .build()
        .unwrap();
    runtime.block_on(async {
        let mut form_data = FormData::new();
        let mut files = Files::new();

        let mut temp_file = async_tempfile::TempFile::new().await.unwrap();
        let _ = temp_file.write_all(b"Hello World").await;
        let _ = temp_file.flush().await;

        let temp_path = temp_file.file_path().to_str().unwrap().to_string();
        let core_file_field = descriptor("file.txt", &temp_path);

        let mut file_field: FileField<UploadedFile> = FileField::new("file");
        files.insert("file".to_string(), vec![core_file_field]);
        let result = file_field.validate(&mut form_data, &mut files);

        let path_field = file_field.value();
        let path_buf = std::path::PathBuf::from(path_field.temp_path);

        assert_eq!(true, path_buf.exists());
        assert_eq!(true, result.is_ok());

        let content = tokio::fs::read_to_string(&path_buf).await.unwrap();
        assert_eq!("Hello World".to_string(), content);
    });
}

#[test]
fn test_file_validate_vec() {
    let mut form_data = FormData::new();
    let mut files = Files::new();

    let core_file_field = descriptor("file.txt", "/tmp/upload");

    let mut file_field: FileField<Vec<UploadedFile>> = FileField::new("file");
    files.insert("file".to_string(), vec![core_file_field]);
    let result = file_field.validate(&mut form_data, &mut files);
    assert_eq!(true, result.is_ok());

    let sent_files = file_field.value();
    assert_eq!(1, sent_files.len());
}

#[test]
fn test_file_validate_vec_optional() {
    let mut form_data = FormData::new();
    let mut files = Files::new();

    let core_file_field = descriptor("file.txt", "/tmp/upload");

    let mut file_field: FileField<Option<Vec<UploadedFile>>> = FileField::new("file");
    files.insert("file".to_string(), vec![core_file_field]);
    let result = file_field.validate(&mut form_data, &mut files);
    assert_eq!(true, result.is_ok());

    let sent_files = file_field.value();
    assert_eq!(true, sent_files.is_some());
    assert_eq!(1, sent_files.unwrap().len());

    // Empty test

    let mut form_data = FormData::new();
    let mut files = Files::new();

    let mut file_field: FileField<Option<Vec<UploadedFile>>> = FileField::new("file");
    let result = file_field.validate(&mut form_data, &mut files);
    assert_eq!(true, result.is_ok());
    assert_eq!(false, file_field.value().is_some());
}

struct RequireFile2;

impl PostValidator<UploadedFile> for RequireFile2 {
    // Ghost item of the trait; never called at runtime.
    fn check_spec(
        &self,
        _value: Option<vstd::seq::Seq<form_fields::forms::FileMeta>>,
    ) -> Result<
        Option<vstd::seq::Seq<form_fields::forms::FileMeta>>,
        vstd::seq::Seq<vstd::seq::Seq<char>>,
    > {
        unreachable!()
    }

    fn check(&self, file: UploadedFile) -> Result<UploadedFile, Vec<String>> {
        if !file.filename.eq("file2.txt") {
            return Err(vec!["File name does not equal file2.txt".to_string()]);
        }

        Ok(file)
    }
}

#[test]
fn test_post_validate() {
    let mut form_data = FormData::new();
    let mut files = Files::new();

    let core_file_field = descriptor("file.txt", "/tmp/upload");

    let base: FileField<UploadedFile> = FileField::new("file");
    let mut file_field = base.post_validate(RequireFile2);
    files.insert("file".to_string(), vec![core_file_field]);
    let result = file_field.validate(&mut form_data, &mut files);
    assert_eq!(false, result.is_ok());
}

#[test]
fn test_post_validate_messages() {
    let mut form_data = FormData::new();
    let mut files = Files::new();

    let base: FileField<UploadedFile> = FileField::new("file");
    let mut file_field = base.post_validate(RequireFile2);
    files.insert("file".to_string(), vec![descriptor("file.txt", "/tmp/upload")]);
    let result = file_field.validate(&mut form_data, &mut files);
    assert_eq!(
        result,
        Err(vec!["File name does not equal file2.txt".to_string()])
    );
    assert_eq!(false, file_field.is_validated());
}

#[test]
fn test_post_validate_accepts() {
    let mut form_data = FormData::new();
    let mut files = Files::new();

    let base: FileField<UploadedFile> = FileField::new("file");
    let mut file_field = base.post_validate(RequireFile2);
    files.insert("file".to_string(), vec![descriptor("file2.txt", "/tmp/upload")]);
    let result = file_field.validate(&mut form_data, &mut files);
    assert_eq!(true, result.is_ok());
    assert_eq!("file2.txt".to_string(), file_field.value().filename);
}

#[test]
fn test_required_file_message() {
    let mut form_data = FormData::new();
    let mut files = Files::new();

    let mut file_field: FileField<UploadedFile> = FileField::new("file");
    let result = file_field.validate(&mut form_data, &mut files);
    assert_eq!(result, Err(vec!["This field is required.".to_string()]));
}

#[test]
fn test_collection_preserves_order() {
    let mut form_data = FormData::new();
    let mut files = Files::new();

    files.insert(
        "file".to_string(),
        vec![
            descriptor("a.txt", "/tmp/upload-a"),
            descriptor("b.txt", "/tmp/upload-b"),
        ],
    );

    let mut file_field: FileField<Vec<UploadedFile>> = FileField::new("file");
    let result = file_field.validate(&mut form_data, &mut files);
    assert_eq!(true, result.is_ok());

    let sent_files = file_field.value();
    assert_eq!(2, sent_files.len());
    assert_eq!("a.txt".to_string(), sent_files[0].filename);
    assert_eq!("b.txt".to_string(), sent_files[1].filename);
}

#[test]
fn test_single_takes_first() {
    let mut form_data = FormData::new();
    let mut files = Files::new();

    files.insert(
        "file".to_string(),
        vec![
            descriptor("a.txt", "/tmp/upload-a"),
            descriptor("b.txt", "/tmp/upload-b"),
        ],
    );

    let mut file_field: FileField<UploadedFile> = FileField::new("file");
    let result = file_field.validate(&mut form_data, &mut files);
    assert_eq!(true, result.is_ok());
    assert_eq!("a.txt".to_string(), file_field.value().filename);
}

#[test]
fn test_optional_collection_present_but_empty() {
    // An entry that is present but holds no descriptors counts as empty.
    let mut form_data = FormData::new();
    let mut files = Files::new();
    files.insert("file".to_string(), vec![]);

    let mut file_field: FileField<Option<Vec<UploadedFile>>> = FileField::new("file");
    let result = file_field.validate(&mut form_data, &mut files);
    assert_eq!(true, result.is_ok());
    assert_eq!(true, file_field.value().is_none());
}

#[test]
fn test_required_file_present_but_empty() {
    let mut form_data = FormData::new();
    let mut files = Files::new();
    files.insert("file".to_string(), vec![]);

    let mut file_field: FileField<UploadedFile> = FileField::new("file");
    let result = file_field.validate(&mut form_data, &mut files);
    assert_eq!(result, Err(vec!["This field is required.".to_string()]));
}

#[test]
fn test_uploaded_file_from_core() {
    let uploaded = UploadedFile::from_core_file_field(descriptor("a.txt", "/tmp/upload-a"));
    assert_eq!("a.txt".to_string(), uploaded.filename);
    assert_eq!("/tmp/upload-a".to_string(), uploaded.temp_path);
    assert_eq!("a.txt".to_string(), uploaded.core_file_field().name);
    assert_eq!(
        "/tmp/upload-a".to_string(),
        uploaded.core_file_field().temp_path
    );
}

#[test]
fn test_file_field_name() {
    let file_field: FileField<UploadedFile> = FileField::new("file");
    assert_eq!("file".to_string(), file_field.field_name());
}
