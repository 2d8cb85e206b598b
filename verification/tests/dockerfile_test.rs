use rusty_docker::dockerfile::{execute_dockerfile, parse_dockerfile, ExecutionState};
use rusty_docker::errors::DockerErrorKind;

fn env_var<'a>(state: &'a ExecutionState, key: &str) -> Option<&'a String> {
    state.env_vars.iter().find(|(k, _)| k == key).map(|(_, v)| v)
}

#[test]
fn test_execute_dockerfile() {
    let dockerfile_content = r#"
FROM alpine:latest
WORKDIR /app
COPY . .
RUN echo "Hello, World!"
EXPOSE 8080
CMD ["echo", "Server started"]
"#;

    let ast = parse_dockerfile(dockerfile_content).expect("Failed to parse Dockerfile");
    let result = execute_dockerfile(&ast, "/tmp/build-context", true);
    assert!(result.is_ok(), "Failed to execute Dockerfile: {:?}", result);

    let state = result.unwrap();
    assert_eq!(state.working_dir, "/app");
    assert_eq!(state.base_image, Some("alpine:latest".to_string()));
    assert!(state.exposed_ports.contains(&"8080".to_string()));
    assert_eq!(state.cmd, Some("[\"echo\", \"Server started\"]".to_string()));
}

#[test]
fn test_execute_dockerfile_with_env() {
    let dockerfile_content = r#"
FROM alpine:latest
ENV APP_NAME=myapp
ENV APP_VERSION=1.0.0
WORKDIR /app
"#;

    let ast = parse_dockerfile(dockerfile_content).expect("Failed to parse Dockerfile");
    let result = execute_dockerfile(&ast, "/tmp/build-context", true);
    assert!(result.is_ok(), "Failed to execute Dockerfile: {:?}", result);

    let state = result.unwrap();
    assert_eq!(env_var(&state, "APP_NAME"), Some(&"myapp".to_string()));
    assert_eq!(env_var(&state, "APP_VERSION"), Some(&"1.0.0".to_string()));
}

#[test]
fn test_all_instructions() {
    let dockerfile_content = r#"
FROM alpine:latest

# Set environment variables
ENV APP_NAME=myapp
ENV APP_VERSION=1.0.0

# Set working directory
WORKDIR /app

# Copy files
COPY . .

# Run commands
RUN echo "Building application..."
RUN echo "APP_NAME=$APP_NAME" > app.txt

# Expose port
EXPOSE 8080

# Set entrypoint and command
ENTRYPOINT ["/bin/sh"]
CMD ["-c", "echo 'Server started on port 8080'"]

# Set user
USER root

# Add label
LABEL maintainer="test@example.com"

# Define build argument
ARG BUILD_ENV=production

# Set volume
VOLUME ["/data"]

# Set stop signal
STOPSIGNAL SIGTERM

# Set health check
HEALTHCHECK --interval=30s --timeout=3s --start-period=5s --retries=3 \
    CMD curl -f http://localhost:8080/ || exit 1

# Set shell
SHELL ["/bin/sh", "-c"]

# Set onbuild instruction
ONBUILD RUN echo "This is an onbuild instruction"
"#;

    let ast = parse_dockerfile(dockerfile_content).expect("Failed to parse Dockerfile");
    let result = execute_dockerfile(&ast, "/tmp/build-context", true);
    assert!(result.is_ok(), "Failed to execute Dockerfile: {:?}", result);

    let state = result.unwrap();
    assert_eq!(state.working_dir, "/app");
    assert_eq!(state.base_image, Some("alpine:latest".to_string()));
    assert!(state.exposed_ports.contains(&"8080".to_string()));
    assert_eq!(state.entrypoint, Some("[/bin/sh]".to_string()));
    assert_eq!(state.cmd, Some("[-c, echo 'Server started on port 8080']".to_string()));
    assert_eq!(env_var(&state, "APP_NAME"), Some(&"myapp".to_string()));
    assert_eq!(env_var(&state, "APP_VERSION"), Some(&"1.0.0".to_string()));
}

#[test]
fn test_parse_valid_dockerfile() {
    let dockerfile_content = r#"
FROM alpine:latest
WORKDIR /app
COPY . .
RUN echo "Hello, World!"
EXPOSE 8080
CMD ["echo", "Server started"]
"#;

    let result = parse_dockerfile(dockerfile_content);
    assert!(result.is_ok(), "Failed to parse valid Dockerfile: {:?}", result);

    let ast = result.unwrap();
    assert!(!ast.instructions.is_empty(), "AST should contain instructions");
}

#[test]
fn test_parse_invalid_dockerfile() {
    let dockerfile_content = r#"
FROM alpine:latest
WORKDIR /app
COPY . .
RUN echo "Hello, World!"
INVALID_INSTRUCTION
EXPOSE 8080
"#;

    let result = parse_dockerfile(dockerfile_content);
    assert!(result.is_err(), "Should fail to parse invalid Dockerfile");
}

#[test]
fn parsed_instructions_keep_order_and_arguments() {
    let ast = parse_dockerfile("# base\nFROM alpine:3.19\n\nRUN apk add \\\n    curl\nCMD [\"sh\"]\n").unwrap();
    let got: Vec<(&str, &str)> =
        ast.instructions.iter().map(|i| (i.keyword.as_str(), i.args.as_str())).collect();
    assert_eq!(got, vec![("FROM", "alpine:3.19"), ("RUN", "apk add curl"), ("CMD", "[\"sh\"]")]);
}

#[test]
fn unknown_instruction_is_named_in_the_error() {
    let err = parse_dockerfile("FROM a\nBOGUS x\n").unwrap_err();
    match *err.kind {
        DockerErrorKind::ContainerError { reason } => {
            assert_eq!(reason, "Failed to parse Dockerfile: unknown instruction BOGUS")
        }
        other => panic!("unexpected error {:?}", other),
    }
}

#[test]
fn continuation_at_end_of_text_still_ends_the_instruction() {
    let ast = parse_dockerfile("FROM a\nRUN make \\").unwrap();
    assert_eq!(ast.instructions.len(), 2);
    assert_eq!(ast.instructions[1].args, "make");
}

#[test]
fn empty_dockerfile_runs_to_the_initial_state() {
    let ast = parse_dockerfile("").unwrap();
    let state = execute_dockerfile(&ast, "/ctx", true).unwrap();
    assert_eq!(state.working_dir, "/");
    assert!(state.env_vars.is_empty());
    assert!(state.base_image.is_none());
    assert!(state.exposed_ports.is_empty());
    assert!(state.entrypoint.is_none());
    assert!(state.cmd.is_none());
}

#[test]
fn execution_rules_for_each_instruction() {
    let ast = parse_dockerfile(
        "FROM a\nFROM b\nWORKDIR app\nWORKDIR src\nENV K v1\nENV K=\"v2\"\nEXPOSE 80 443/tcp\nCMD run it\n",
    )
    .unwrap();
    let state = execute_dockerfile(&ast, "/ctx", true).unwrap();
    assert_eq!(state.base_image, Some("b".to_string()));
    assert_eq!(state.working_dir, "/app/src");
    assert_eq!(state.env_vars, vec![("K".to_string(), "v2".to_string())]);
    assert_eq!(state.exposed_ports, vec!["80".to_string(), "443/tcp".to_string()]);
    assert_eq!(state.cmd, Some("run it".to_string()));
    assert!(state.entrypoint.is_none());
}

#[test]
fn missing_build_context_is_refused() {
    let ast = parse_dockerfile("FROM a\n").unwrap();
    let err = execute_dockerfile(&ast, "/nope", false).unwrap_err();
    match *err.kind {
        DockerErrorKind::StorageReadFailed { path } => {
            assert_eq!(path, "Build context directory not found: \"/nope\"")
        }
        other => panic!("unexpected error {:?}", other),
    }
}

#[test]
fn keywords_are_not_case_sensitive() {
    let ast = parse_dockerfile("from alpine\nWorkDir /srv\n").unwrap();
    assert_eq!(ast.instructions[0].keyword, "FROM");
    assert_eq!(ast.instructions[1].keyword, "WORKDIR");
    let state = execute_dockerfile(&ast, "/ctx", true).unwrap();
    assert_eq!(state.base_image, Some("alpine".to_string()));
    assert_eq!(state.working_dir, "/srv");
    let err = parse_dockerfile("frum alpine\n").unwrap_err();
    match *err.kind {
        DockerErrorKind::ContainerError { reason } => {
            assert_eq!(reason, "Failed to parse Dockerfile: unknown instruction frum")
        }
        other => panic!("unexpected error {:?}", other),
    }
}
