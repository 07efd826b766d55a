use vstd::prelude::*;
use vstd::string::*;

verus! {

/// Errors that the game rules report to a client.
#[derive(Debug)]
pub enum AppError {
    Config(String),
    InvalidCredentials,
    Unauthorized,
    Conflict(String),
    Validation(String),
    NotFound,
    Internal(String),
}

/// Result of a rule check or computation.
pub type AppResult<T> = Result<T, AppError>;

/// Whether a result is a validation error with the given message.
pub open spec fn rejected_with<T>(r: Result<T, AppError>, message: Seq<char>) -> bool {
    r matches Err(AppError::Validation(m)) && m@ == message
}

/// Whether a result is a conflict error with the given message.
pub open spec fn conflict_with<T>(r: Result<T, AppError>, message: Seq<char>) -> bool {
    r matches Err(AppError::Conflict(m)) && m@ == message
}

/// Machine-readable code of an error.
pub open spec fn code_of(e: AppError) -> Seq<char> {
    match e {
        AppError::Config(_) | AppError::Internal(_) => "INTERNAL_ERROR"@,
        AppError::InvalidCredentials => "INVALID_CREDENTIALS"@,
        AppError::Unauthorized => "UNAUTHORIZED"@,
        AppError::Conflict(_) => "CONFLICT"@,
        AppError::Validation(_) => "VALIDATION_ERROR"@,
        AppError::NotFound => "NOT_FOUND"@,
    }
}

/// Human-readable description of an error.
pub open spec fn message_of(e: AppError) -> Seq<char> {
    match e {
        AppError::Config(d) => "configuração inválida: "@ + d@,
        AppError::InvalidCredentials => "credenciais inválidas"@,
        AppError::Unauthorized => "não autorizado"@,
        AppError::Conflict(d) => "conflito: "@ + d@,
        AppError::Validation(d) => "requisição inválida: "@ + d@,
        AppError::NotFound => "recurso não encontrado"@,
        AppError::Internal(_) => "erro interno"@,
    }
}

/// Description shown to clients: infrastructure details are never disclosed.
pub open spec fn public_message_of(e: AppError) -> Seq<char> {
    match e {
        AppError::Config(_) | AppError::Internal(_) => "O servidor não conseguiu concluir a operação"@,
        _ => message_of(e),
    }
}

/// HTTP status that an error maps to.
pub open spec fn status_of(e: AppError) -> u16 {
    match e {
        AppError::InvalidCredentials | AppError::Unauthorized => 401,
        AppError::Conflict(_) => 409,
        AppError::Validation(_) => 400,
        AppError::NotFound => 404,
        AppError::Config(_) | AppError::Internal(_) => 500,
    }
}

impl AppError {
    /// Numeric HTTP status of the error.
    pub fn status_code(&self) -> (r: u16)
        ensures
            r == status_of(*self),
    {
        match self {
            AppError::InvalidCredentials | AppError::Unauthorized => 401,
            AppError::Conflict(_) => 409,
            AppError::Validation(_) => 400,
            AppError::NotFound => 404,
            AppError::Config(_) | AppError::Internal(_) => 500,
        }
    }

    /// Machine-readable code of the error.
    pub fn code(&self) -> (r: &'static str)
        ensures
            r@ == code_of(*self),
    {
        match self {
            AppError::Config(_) | AppError::Internal(_) => "INTERNAL_ERROR",
            AppError::InvalidCredentials => "INVALID_CREDENTIALS",
            AppError::Unauthorized => "UNAUTHORIZED",
            AppError::Conflict(_) => "CONFLICT",
            AppError::Validation(_) => "VALIDATION_ERROR",
            AppError::NotFound => "NOT_FOUND",
        }
    }

    /// Human-readable description of the error.
    pub fn message(&self) -> (r: String)
        ensures
            r@ == message_of(*self),
    {
        match self {
            AppError::Config(d) => String::from_str("configuração inválida: ").concat(d.as_str()),
            AppError::InvalidCredentials => String::from_str("credenciais inválidas"),
            AppError::Unauthorized => String::from_str("não autorizado"),
            AppError::Conflict(d) => String::from_str("conflito: ").concat(d.as_str()),
            AppError::Validation(d) => String::from_str("requisição inválida: ").concat(d.as_str()),
            AppError::NotFound => String::from_str("recurso não encontrado"),
            AppError::Internal(_) => String::from_str("erro interno"),
        }
    }

    /// Description shown to clients.
    pub fn public_message(&self) -> (r: String)
        ensures
            r@ == public_message_of(*self),
    {
        match self {
            AppError::Config(_) | AppError::Internal(_) => String::from_str(
                "O servidor não conseguiu concluir a operação",
            ),
            _ => self.message(),
        }
    }
}

} // verus!
