//! End-to-end validation of whole documents, written out as the toml text an
//! operator would feed the tool.

use splat::create::CreationError;
use splat::details::{DetailBase, DetailsConfiguration, Select, Shape};
use splat::job::{JobBase, JobConfiguration};
use splat::modifiers::{ModifiersBase, ModifiersConfiguration, Output};
use splat::session::{from_path, read_configuration, SessionBase, SessionConfiguration};

/// The documents under test, by the name each is known as.
fn get(name: &str) -> &'static str {
    match name {
        "commands.random.weights.bad.toml" => {
            "[details]\n\
             name = \"random weights over the limit\"\n\
             [details.shape]\n\
             select = \"Random\"\n\
             steps = 10\n\
             parallel = 2\n\
             \n\
             [[job]]\n\
             cmd = \"echo alpha\"\n\
             value = 70\n\
             \n\
             [[job]]\n\
             cmd = \"echo beta\"\n\
             value = 40\n"
        }
        "commands.linear.total_steps.bad.toml" => {
            "[details]\n\
             name = \"linear steps over the session total\"\n\
             [details.shape]\n\
             select = \"Linear\"\n\
             steps = 10\n\
             parallel = 1\n\
             \n\
             [[job]]\n\
             cmd = \"echo alpha\"\n\
             value = 4\n\
             \n\
             [[job]]\n\
             cmd = \"echo beta\"\n\
             value = 8\n"
        }
        "select.variant.bad.toml" => {
            "[details]\n\
             name = \"unknown selection strategy\"\n\
             [details.shape]\n\
             select = \"Sporadic\"\n\
             steps = 4\n\
             parallel = 1\n\
             \n\
             [[job]]\n\
             cmd = \"echo gamma\"\n\
             value = 2\n"
        }
        "commands.random.weights.good.toml" => {
            "[details]\n\
             name = \"random weights within the limit\"\n\
             [details.shape]\n\
             select = \"Random\"\n\
             steps = 10\n\
             parallel = 2\n\
             \n\
             [[job]]\n\
             cmd = \"echo alpha\"\n\
             value = 60\n\
             \n\
             [[job]]\n\
             cmd = \"echo beta\"\n\
             value = 40\n"
        }
        "commands.linear.total_steps.good.toml" => {
            "[details]\n\
             name = \"linear steps within the session total\"\n\
             [details.shape]\n\
             select = \"Linear\"\n\
             steps = 20\n\
             parallel = 2\n\
             \n\
             [[job]]\n\
             cmd = \"echo alpha\"\n\
             value = 4\n\
             \n\
             [[job]]\n\
             cmd = \"echo beta\"\n\
             value = 8\n"
        }
        other => panic!("no document is known as {other}"),
    }
}

fn uint_of(v: &toml::Value) -> Result<u64, CreationError> {
    let i = v.as_integer().ok_or(CreationError::Parse)?;
    u64::try_from(i).map_err(|_| CreationError::Parse)
}

fn output_of(v: &toml::Value) -> Result<Output, CreationError> {
    if let Some(s) = v.as_str() {
        return Output::from_name(&s.to_string()).ok_or(CreationError::Parse);
    }
    if let Some(t) = v.as_table() {
        if t.len() != 1 {
            return Err(CreationError::Parse);
        }
        let (kind, pv) = t.iter().next().ok_or(CreationError::Parse)?;
        let path = pv.as_str().ok_or(CreationError::Parse)?.to_string();
        return Output::with_path(&kind.to_string(), path).ok_or(CreationError::Parse);
    }
    Err(CreationError::Parse)
}

fn modifiers_of(t: &toml::Table) -> Result<ModifiersConfiguration, CreationError> {
    let wrapper = match t.get("wrapper") {
        Some(v) => Some(v.as_str().ok_or(CreationError::Parse)?.to_string()),
        None => None,
    };
    let stdout = match t.get("stdout") {
        Some(v) => Some(output_of(v)?),
        None => None,
    };
    let stderr = match t.get("stderr") {
        Some(v) => Some(output_of(v)?),
        None => None,
    };
    Ok(ModifiersBase { wrapper, stdout, stderr })
}

fn details_of(v: &toml::Value) -> Result<DetailsConfiguration, CreationError> {
    let t = v.as_table().ok_or(CreationError::Parse)?;
    let name = t
        .get("name")
        .and_then(|n| n.as_str())
        .ok_or(CreationError::Parse)?
        .to_string();
    let logging = match t.get("logging") {
        Some(b) => b.as_bool().ok_or(CreationError::Parse)?,
        None => false,
    };
    let shape_table = t
        .get("shape")
        .and_then(|s| s.as_table())
        .ok_or(CreationError::Parse)?;
    let select = match shape_table.get("select") {
        Some(sv) => {
            let s = sv.as_str().ok_or(CreationError::Parse)?;
            Select::from_name(&s.to_string()).ok_or(CreationError::Parse)?
        }
        None => Select::default(),
    };
    let steps = uint_of(shape_table.get("steps").ok_or(CreationError::Parse)?)?;
    let parallel = uint_of(shape_table.get("parallel").ok_or(CreationError::Parse)?)?;
    Ok(DetailBase {
        name,
        logging,
        modifiers: modifiers_of(t)?,
        shape: Shape { select, steps, parallel },
    })
}

fn job_of(v: &toml::Value) -> Result<JobConfiguration, CreationError> {
    let t = v.as_table().ok_or(CreationError::Parse)?;
    let cmd = t
        .get("cmd")
        .and_then(|c| c.as_str())
        .ok_or(CreationError::Parse)?
        .to_string();
    let value = match t.get("value") {
        Some(v) => Some(uint_of(v)?),
        None => None,
    };
    Ok(JobBase { cmd, value, modifiers: modifiers_of(t)? })
}

/// What the application layer does with a document's bytes: parse the toml
/// and pour it into the library's configuration form.
fn document_of(text: &str) -> Result<SessionConfiguration, CreationError> {
    let root: toml::Value = toml::from_str(text).map_err(|_| CreationError::Parse)?;
    let t = root.as_table().ok_or(CreationError::Parse)?;
    let details = details_of(t.get("details").ok_or(CreationError::Parse)?)?;
    let jobs = t
        .get("job")
        .and_then(|j| j.as_array())
        .ok_or(CreationError::Parse)?
        .iter()
        .map(job_of)
        .collect::<Result<Vec<_>, _>>()?;
    Ok(SessionBase { details, jobs })
}

#[test]
fn config_file_validation_fails() {
    let validation: Vec<(&str, Result<(), ()>)> = vec![
        ("commands.random.weights.bad.toml", Err(())),
        ("commands.linear.total_steps.bad.toml", Err(())),
        ("select.variant.bad.toml", Err(())),
    ];
    validation.iter().for_each(|(file, _expected)| {
        let got = document_of(get(file)).and_then(read_configuration);
        assert!(got.is_err())
    });
}

#[test]
fn config_file_validation_succeeds() {
    let validation: Vec<&str> = vec![
        "commands.random.weights.good.toml",
        "commands.linear.total_steps.good.toml",
    ];
    validation.iter().for_each(|file| {
        let got = document_of(get(file)).and_then(read_configuration);
        if got.is_err() {
            println!("Failed: {file} with\t{:?}", got.err());
            assert!(false)
        }
    });
}

#[test]
fn create_file_validation_fails() {
    let validation: Vec<(&str, Result<(), ()>)> = vec![
        ("commands.random.weights.bad.toml", Err(())),
        ("commands.linear.total_steps.bad.toml", Err(())),
        ("select.variant.bad.toml", Err(())),
    ];
    validation.iter().for_each(|(file, _expected)| {
        let got = document_of(get(file)).and_then(from_path);
        assert!(got.is_err())
    });
}

#[test]
fn create_file_validation_succeeds() {
    let validation: Vec<&str> = vec![
        "commands.random.weights.good.toml",
        "commands.linear.total_steps.good.toml",
    ];
    validation.iter().for_each(|file| {
        let got = document_of(get(file)).and_then(from_path);
        if got.is_err() {
            println!("Failed: {file} with\t{:?}", got.err());
            assert!(false)
        }
    });
}
