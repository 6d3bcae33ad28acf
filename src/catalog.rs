//! The catalog of generatable files: one descriptor per file, in a fixed order.
use vstd::prelude::*;


verus! {

/// Every file that can be created for a Rext application.
#[derive(Debug, Clone, Copy, PartialEq, Eq, Hash, Structural)]
pub enum RextFileType {
    /// Root files
    /// Configuration file for the Rext application
    RextConfig,

    /// example.env file
    ExampleEnv,

    /// Docker files
    DockerComposeYml,
    DockerIgnore,
    Dockerfile,

    /// Git files
    GitIgnore,

    /// README files
    ReadmeMd,

    /// Custom build file
    BuildRs,

    /// Cargo.toml for the Rust project
    CargoToml,

    /// Backend Files
    /// Main Rust source file
    MainRs,
    /// bridge layer source file
    BridgeModRs,
    /// bridge/handlers source file
    HandlersModRs,
    /// Handlers
    HanlderWebsocketRs,
    HandlersAdminRs,
    HandlersRolesRs,
    HandlersAuthRs,

    /// bridge/middleware source file
    MiddlewareModRs,
    /// Middleware
    MiddlewareAuthRs,
    MiddlewareAdminRs,
    MiddlewareLoggingRs,

    /// bridge/routes source file
    RoutesModRs,
    /// Routes
    RoutesAuthRs,
    RoutesAdminRs,

    /// bridge/types source file
    BridgeTypesModRs,
    /// bridge/types/admin
    BridgeTypesAdminRs,
    /// bridge/types/auth
    BridgeTypesAuthRs,
    /// bridge/types/logging
    BridgeTypesLoggingRs,

    /// control layer source file
    ControlModRs,

    /// control/services source file
    ServicesModRs,
    /// Services
    ServerConfigRs,
    StartupRs,
    UserServiceRs,
    DatabaseServiceRs,
    AdminServiceRs,
    TokenServiceRs,
    SessionServiceRs,
    AuthServiceRs,
    PermissionServiceRs,
    SystemMonitorServiceRs,

    /// domain layer source file
    DomainModRs,
    DomainPermissionsRs,
    DomainUserRs,
    DomainValidationRs,
    DomainAuthRs,

    /// entity layer source file
    EntityModRs,

    /// infrastructure layer source file
    InfrastructureModRs,
    /// infrastructure modules
    InfrastructureJobQueueRs,
    InfrastructureLoggingRs,
    InfrastructureSchedulerRs,
    InfrastructureWebsocketRs,
    InfrastructureAppErrorRs,
    InfrastructureDatabaseRs,
    InfrastructureEmailRs,
    InfrastructureQueryPerformanceRs,
    InfrastructureServerRs,
    InfrastructureCorsRs,
    InfrastructureOpenApiRs,
    InfrastructureJwtClaimsRs,

    /// infrastructure/macros source file
    MacrosModRs,
    /// Macros
    PermissionMacroRs,

    /// Frontend Files
    /// front end dependencies file
    PackageJson,
    /// Custom vite config
    ViteConfigTs,
    /// Custom unified config
    UnifiedConfigTs,
    /// Custom OpenAPI Config
    OpenApiConfigTs,
    /// Custom Typescript Config
    TsConfigTs,

    /// Migration Files
    MigrationLibRs,
    MigrationMainRs,
    InitialMigrationRs,
    MigrationCargoToml,
}

/// The Rext module that a file belongs to.
#[derive(Debug, Clone, Copy, PartialEq, Eq, Structural)]
pub enum RextModule {
    /// Core Rext functionality
    RextCore,
    /// Admin Panel Module
    RextAdmin,
    /// Vue Module
    RextVue,
    /// Task Scheduler/Job Queue Module
    RextQueue,
    /// Email Service Module
    RextEmail,
}

/// One entry of the catalog: where a file goes, which module owns it, and which
/// bundled template supplies its raw content.
#[derive(Debug, Clone, Copy)]
pub struct FileDescriptor {
    /// The file this entry describes.
    pub file_type: RextFileType,
    /// The file name on disk.
    pub name: &'static str,
    /// The directory, relative to the project root, that holds the file.
    pub path: &'static str,
    /// The module that owns the file.
    pub module: RextModule,
    /// Whether the file's directory must be created.
    pub needs_directory: bool,
    /// The bundled template that holds the file's raw content.
    pub source: &'static str,
}

/// Builds a descriptor from its parts.
pub open spec fn entry(
    file_type: RextFileType,
    name: &'static str,
    path: &'static str,
    module: RextModule,
    needs_directory: bool,
    source: &'static str,
) -> FileDescriptor {
    FileDescriptor { file_type, name, path, module, needs_directory, source }
}

impl RextFileType {
    /// The catalog entry of this file.
    pub open spec fn spec_descriptor(self) -> FileDescriptor {
        match self {
            RextFileType::RextConfig => entry(RextFileType::RextConfig, "rext.toml", ".", RextModule::RextCore, false, "rext.toml"),
            RextFileType::ExampleEnv => entry(RextFileType::ExampleEnv, "example.env", ".", RextModule::RextCore, false, "example.env"),
            RextFileType::DockerComposeYml => entry(RextFileType::DockerComposeYml, "docker-compose.yml", ".", RextModule::RextCore, false, "docker-compose.yml"),
            RextFileType::DockerIgnore => entry(RextFileType::DockerIgnore, "dockerignore", ".", RextModule::RextCore, false, "dockerignore"),
            RextFileType::Dockerfile => entry(RextFileType::Dockerfile, "Dockerfile", ".", RextModule::RextCore, false, "Dockerfile"),
            RextFileType::GitIgnore => entry(RextFileType::GitIgnore, ".gitignore", ".", RextModule::RextCore, false, "gitignore"),
            RextFileType::ReadmeMd => entry(RextFileType::ReadmeMd, "README.md", ".", RextModule::RextCore, false, "README.md"),
            RextFileType::BuildRs => entry(RextFileType::BuildRs, "build.rs", ".", RextModule::RextCore, false, "build.rs"),
            RextFileType::CargoToml => entry(RextFileType::CargoToml, "Cargo.toml", ".", RextModule::RextCore, false, "Cargo.toml"),
            RextFileType::MainRs => entry(RextFileType::MainRs, "main.rs", "backend", RextModule::RextCore, true, "backend/main.rs"),
            RextFileType::BridgeModRs => entry(RextFileType::BridgeModRs, "mod.rs", "backend/bridge", RextModule::RextCore, true, "backend/bridge/mod.rs"),
            RextFileType::HandlersModRs => entry(RextFileType::HandlersModRs, "mod.rs", "backend/bridge/handlers", RextModule::RextCore, true, "backend/bridge/handlers/mod.rs"),
            RextFileType::HanlderWebsocketRs => entry(RextFileType::HanlderWebsocketRs, "websocket.rs", "backend/bridge/handlers", RextModule::RextCore, true, "backend/bridge/handlers/websocket.rs"),
            RextFileType::HandlersAdminRs => entry(RextFileType::HandlersAdminRs, "admin.rs", "backend/bridge/handlers", RextModule::RextCore, true, "backend/bridge/handlers/admin.rs"),
            RextFileType::HandlersRolesRs => entry(RextFileType::HandlersRolesRs, "roles.rs", "backend/bridge/handlers", RextModule::RextCore, true, "backend/bridge/handlers/roles.rs"),
            RextFileType::HandlersAuthRs => entry(RextFileType::HandlersAuthRs, "auth.rs", "backend/bridge/handlers", RextModule::RextCore, true, "backend/bridge/handlers/auth.rs"),
            RextFileType::MiddlewareModRs => entry(RextFileType::MiddlewareModRs, "mod.rs", "backend/bridge/middleware", RextModule::RextCore, true, "backend/bridge/middleware/mod.rs"),
            RextFileType::MiddlewareAuthRs => entry(RextFileType::MiddlewareAuthRs, "auth.rs", "backend/bridge/middleware", RextModule::RextCore, true, "backend/bridge/middleware/auth.rs"),
            RextFileType::MiddlewareAdminRs => entry(RextFileType::MiddlewareAdminRs, "admin.rs", "backend/bridge/middleware", RextModule::RextCore, true, "backend/bridge/middleware/admin.rs"),
            RextFileType::MiddlewareLoggingRs => entry(RextFileType::MiddlewareLoggingRs, "logging.rs", "backend/bridge/middleware", RextModule::RextCore, true, "backend/bridge/middleware/logging.rs"),
            RextFileType::RoutesModRs => entry(RextFileType::RoutesModRs, "mod.rs", "backend/bridge/routes", RextModule::RextCore, true, "backend/bridge/routes/mod.rs"),
            RextFileType::RoutesAdminRs => entry(RextFileType::RoutesAdminRs, "admin.rs", "backend/bridge/routes", RextModule::RextCore, true, "backend/bridge/routes/admin.rs"),
            RextFileType::RoutesAuthRs => entry(RextFileType::RoutesAuthRs, "auth.rs", "backend/bridge/routes", RextModule::RextCore, true, "backend/bridge/routes/auth.rs"),
            RextFileType::BridgeTypesModRs => entry(RextFileType::BridgeTypesModRs, "mod.rs", "backend/bridge/types", RextModule::RextCore, true, "backend/bridge/types/mod.rs"),
            RextFileType::BridgeTypesAdminRs => entry(RextFileType::BridgeTypesAdminRs, "admin.rs", "backend/bridge/types", RextModule::RextCore, true, "backend/bridge/types/admin.rs"),
            RextFileType::BridgeTypesAuthRs => entry(RextFileType::BridgeTypesAuthRs, "auth.rs", "backend/bridge/types", RextModule::RextCore, true, "backend/bridge/types/auth.rs"),
            RextFileType::BridgeTypesLoggingRs => entry(RextFileType::BridgeTypesLoggingRs, "logging.rs", "backend/bridge/types", RextModule::RextCore, true, "backend/bridge/types/logging.rs"),
            RextFileType::ControlModRs => entry(RextFileType::ControlModRs, "mod.rs", "backend/control", RextModule::RextCore, true, "backend/control/mod.rs"),
            RextFileType::ServicesModRs => entry(RextFileType::ServicesModRs, "mod.rs", "backend/control/services", RextModule::RextCore, true, "backend/control/services/mod.rs"),
            RextFileType::ServerConfigRs => entry(RextFileType::ServerConfigRs, "server_config.rs", "backend/control/services", RextModule::RextCore, true, "backend/control/services/server_config.rs"),
            RextFileType::StartupRs => entry(RextFileType::StartupRs, "startup.rs", "backend/control/services", RextModule::RextCore, true, "backend/control/services/startup.rs"),
            RextFileType::UserServiceRs => entry(RextFileType::UserServiceRs, "user_service.rs", "backend/control/services", RextModule::RextCore, true, "backend/control/services/user_service.rs"),
            RextFileType::DatabaseServiceRs => entry(RextFileType::DatabaseServiceRs, "database_service.rs", "backend/control/services", RextModule::RextCore, true, "backend/control/services/database_service.rs"),
            RextFileType::AdminServiceRs => entry(RextFileType::AdminServiceRs, "admin_service.rs", "backend/control/services", RextModule::RextCore, true, "backend/control/services/admin_service.rs"),
            RextFileType::TokenServiceRs => entry(RextFileType::TokenServiceRs, "token_service.rs", "backend/control/services", RextModule::RextCore, true, "backend/control/services/token_service.rs"),
            RextFileType::SessionServiceRs => entry(RextFileType::SessionServiceRs, "session_service.rs", "backend/control/services", RextModule::RextCore, true, "backend/control/services/session_service.rs"),
            RextFileType::AuthServiceRs => entry(RextFileType::AuthServiceRs, "auth_service.rs", "backend/control/services", RextModule::RextCore, true, "backend/control/services/auth_service.rs"),
            RextFileType::PermissionServiceRs => entry(RextFileType::PermissionServiceRs, "permission_service.rs", "backend/control/services", RextModule::RextCore, true, "backend/control/services/permission_service.rs"),
            RextFileType::SystemMonitorServiceRs => entry(RextFileType::SystemMonitorServiceRs, "system_monitor.rs", "backend/control/services", RextModule::RextCore, true, "backend/control/services/system_monitor.rs"),
            RextFileType::DomainModRs => entry(RextFileType::DomainModRs, "mod.rs", "backend/domain", RextModule::RextCore, true, "backend/domain/mod.rs"),
            RextFileType::DomainPermissionsRs => entry(RextFileType::DomainPermissionsRs, "permissions.rs", "backend/domain", RextModule::RextCore, true, "backend/domain/permissions.rs"),
            RextFileType::DomainUserRs => entry(RextFileType::DomainUserRs, "user.rs", "backend/domain", RextModule::RextCore, true, "backend/domain/user.rs"),
            RextFileType::DomainValidationRs => entry(RextFileType::DomainValidationRs, "validation.rs", "backend/domain", RextModule::RextCore, true, "backend/domain/validation.rs"),
            RextFileType::DomainAuthRs => entry(RextFileType::DomainAuthRs, "auth.rs", "backend/domain", RextModule::RextCore, true, "backend/domain/auth.rs"),
            RextFileType::EntityModRs => entry(RextFileType::EntityModRs, "mod.rs", "backend/entity", RextModule::RextCore, true, "backend/entity/mod.rs"),
            RextFileType::InfrastructureModRs => entry(RextFileType::InfrastructureModRs, "mod.rs", "backend/infrastructure", RextModule::RextCore, true, "backend/infrastructure/mod.rs"),
            RextFileType::InfrastructureJobQueueRs => entry(RextFileType::InfrastructureJobQueueRs, "job_queue.rs", "backend/infrastructure", RextModule::RextCore, true, "backend/infrastructure/job_queue.rs"),
            RextFileType::InfrastructureLoggingRs => entry(RextFileType::InfrastructureLoggingRs, "logging.rs", "backend/infrastructure", RextModule::RextCore, true, "backend/infrastructure/logging.rs"),
            RextFileType::InfrastructureSchedulerRs => entry(RextFileType::InfrastructureSchedulerRs, "scheduler.rs", "backend/infrastructure", RextModule::RextCore, true, "backend/infrastructure/scheduler.rs"),
            RextFileType::InfrastructureWebsocketRs => entry(RextFileType::InfrastructureWebsocketRs, "websocket.rs", "backend/infrastructure", RextModule::RextCore, true, "backend/infrastructure/websocket.rs"),
            RextFileType::InfrastructureAppErrorRs => entry(RextFileType::InfrastructureAppErrorRs, "app_error.rs", "backend/infrastructure", RextModule::RextCore, true, "backend/infrastructure/app_error.rs"),
            RextFileType::InfrastructureEmailRs => entry(RextFileType::InfrastructureEmailRs, "email.rs", "backend/infrastructure", RextModule::RextCore, true, "backend/infrastructure/email.rs"),
            RextFileType::InfrastructureDatabaseRs => entry(RextFileType::InfrastructureDatabaseRs, "database.rs", "backend/infrastructure", RextModule::RextCore, true, "backend/infrastructure/database.rs"),
            RextFileType::InfrastructureQueryPerformanceRs => entry(RextFileType::InfrastructureQueryPerformanceRs, "query_performance.rs", "backend/infrastructure", RextModule::RextCore, true, "backend/infrastructure/query_performance.rs"),
            RextFileType::InfrastructureServerRs => entry(RextFileType::InfrastructureServerRs, "server.rs", "backend/infrastructure", RextModule::RextCore, true, "backend/infrastructure/server.rs"),
            RextFileType::InfrastructureCorsRs => entry(RextFileType::InfrastructureCorsRs, "cors.rs", "backend/infrastructure", RextModule::RextCore, true, "backend/infrastructure/cors.rs"),
            RextFileType::InfrastructureOpenApiRs => entry(RextFileType::InfrastructureOpenApiRs, "openapi.rs", "backend/infrastructure", RextModule::RextCore, true, "backend/infrastructure/openapi.rs"),
            RextFileType::InfrastructureJwtClaimsRs => entry(RextFileType::InfrastructureJwtClaimsRs, "jwt_claims.rs", "backend/infrastructure", RextModule::RextCore, true, "backend/infrastructure/jwt_claims.rs"),
            RextFileType::MacrosModRs => entry(RextFileType::MacrosModRs, "mod.rs", "backend/infrastructure/macros", RextModule::RextCore, true, "backend/infrastructure/macros/mod.rs"),
            RextFileType::PermissionMacroRs => entry(RextFileType::PermissionMacroRs, "permission_macro.rs", "backend/infrastructure/macros", RextModule::RextCore, true, "backend/infrastructure/macros/permission_macro.rs"),
            RextFileType::PackageJson => entry(RextFileType::PackageJson, "package.json", "frontend", RextModule::RextCore, true, "frontend/package.json"),
            RextFileType::ViteConfigTs => entry(RextFileType::ViteConfigTs, "vite.config.ts", "frontend", RextModule::RextCore, true, "frontend/vite.config.ts"),
            RextFileType::UnifiedConfigTs => entry(RextFileType::UnifiedConfigTs, "unified.config.ts", "frontend/config", RextModule::RextCore, true, "frontend/config/unified.config.ts"),
            RextFileType::OpenApiConfigTs => entry(RextFileType::OpenApiConfigTs, "openapi-ts.config.ts", "frontend", RextModule::RextCore, true, "frontend/openapi-ts.config.ts"),
            RextFileType::TsConfigTs => entry(RextFileType::TsConfigTs, "tsconfig.json", "frontend", RextModule::RextCore, true, "frontend/tsconfig.json"),
            RextFileType::MigrationLibRs => entry(RextFileType::MigrationLibRs, "lib.rs", "migration/src", RextModule::RextCore, true, "migration/src/lib.rs"),
            RextFileType::MigrationMainRs => entry(RextFileType::MigrationMainRs, "main.rs", "migration/src", RextModule::RextCore, true, "migration/src/main.rs"),
            RextFileType::InitialMigrationRs => entry(RextFileType::InitialMigrationRs, "initial_migration.rs", "migration/src", RextModule::RextCore, true, "migration/src/initial_migration.rs"),
            RextFileType::MigrationCargoToml => entry(RextFileType::MigrationCargoToml, "Cargo.toml", "migration", RextModule::RextCore, true, "migration/Cargo.toml"),
        }
    }

    /// The position of this file in the catalog.
    pub open spec fn catalog_position(self) -> int {
        match self {
            RextFileType::RextConfig => 0,
            RextFileType::ExampleEnv => 1,
            RextFileType::DockerComposeYml => 2,
            RextFileType::DockerIgnore => 3,
            RextFileType::Dockerfile => 4,
            RextFileType::GitIgnore => 5,
            RextFileType::ReadmeMd => 6,
            RextFileType::BuildRs => 7,
            RextFileType::CargoToml => 8,
            RextFileType::MainRs => 9,
            RextFileType::BridgeModRs => 10,
            RextFileType::HandlersModRs => 11,
            RextFileType::HanlderWebsocketRs => 12,
            RextFileType::HandlersAdminRs => 13,
            RextFileType::HandlersRolesRs => 14,
            RextFileType::HandlersAuthRs => 15,
            RextFileType::MiddlewareModRs => 16,
            RextFileType::MiddlewareAuthRs => 17,
            RextFileType::MiddlewareAdminRs => 18,
            RextFileType::MiddlewareLoggingRs => 19,
            RextFileType::RoutesModRs => 20,
            RextFileType::RoutesAdminRs => 21,
            RextFileType::RoutesAuthRs => 22,
            RextFileType::BridgeTypesModRs => 23,
            RextFileType::BridgeTypesAdminRs => 24,
            RextFileType::BridgeTypesAuthRs => 25,
            RextFileType::BridgeTypesLoggingRs => 26,
            RextFileType::ControlModRs => 27,
            RextFileType::ServicesModRs => 28,
            RextFileType::ServerConfigRs => 29,
            RextFileType::StartupRs => 30,
            RextFileType::UserServiceRs => 31,
            RextFileType::DatabaseServiceRs => 32,
            RextFileType::AdminServiceRs => 33,
            RextFileType::TokenServiceRs => 34,
            RextFileType::SessionServiceRs => 35,
            RextFileType::AuthServiceRs => 36,
            RextFileType::PermissionServiceRs => 37,
            RextFileType::SystemMonitorServiceRs => 38,
            RextFileType::DomainModRs => 39,
            RextFileType::DomainPermissionsRs => 40,
            RextFileType::DomainUserRs => 41,
            RextFileType::DomainValidationRs => 42,
            RextFileType::DomainAuthRs => 43,
            RextFileType::EntityModRs => 44,
            RextFileType::InfrastructureModRs => 45,
            RextFileType::InfrastructureJobQueueRs => 46,
            RextFileType::InfrastructureLoggingRs => 47,
            RextFileType::InfrastructureSchedulerRs => 48,
            RextFileType::InfrastructureWebsocketRs => 49,
            RextFileType::InfrastructureAppErrorRs => 50,
            RextFileType::InfrastructureEmailRs => 51,
            RextFileType::InfrastructureDatabaseRs => 52,
            RextFileType::InfrastructureQueryPerformanceRs => 53,
            RextFileType::InfrastructureServerRs => 54,
            RextFileType::InfrastructureCorsRs => 55,
            RextFileType::InfrastructureOpenApiRs => 56,
            RextFileType::InfrastructureJwtClaimsRs => 57,
            RextFileType::MacrosModRs => 58,
            RextFileType::PermissionMacroRs => 59,
            RextFileType::PackageJson => 60,
            RextFileType::ViteConfigTs => 61,
            RextFileType::UnifiedConfigTs => 62,
            RextFileType::OpenApiConfigTs => 63,
            RextFileType::TsConfigTs => 64,
            RextFileType::MigrationLibRs => 65,
            RextFileType::MigrationMainRs => 66,
            RextFileType::InitialMigrationRs => 67,
            RextFileType::MigrationCargoToml => 68,
        }
    }

    /// The catalog entry of this file.
    pub fn descriptor(&self) -> (r: FileDescriptor)
        ensures
            r == self.spec_descriptor(),
    {
        match self {
            RextFileType::RextConfig => FileDescriptor { file_type: RextFileType::RextConfig, name: "rext.toml", path: ".", module: RextModule::RextCore, needs_directory: false, source: "rext.toml" },
            RextFileType::ExampleEnv => FileDescriptor { file_type: RextFileType::ExampleEnv, name: "example.env", path: ".", module: RextModule::RextCore, needs_directory: false, source: "example.env" },
            RextFileType::DockerComposeYml => FileDescriptor { file_type: RextFileType::DockerComposeYml, name: "docker-compose.yml", path: ".", module: RextModule::RextCore, needs_directory: false, source: "docker-compose.yml" },
            RextFileType::DockerIgnore => FileDescriptor { file_type: RextFileType::DockerIgnore, name: "dockerignore", path: ".", module: RextModule::RextCore, needs_directory: false, source: "dockerignore" },
            RextFileType::Dockerfile => FileDescriptor { file_type: RextFileType::Dockerfile, name: "Dockerfile", path: ".", module: RextModule::RextCore, needs_directory: false, source: "Dockerfile" },
            RextFileType::GitIgnore => FileDescriptor { file_type: RextFileType::GitIgnore, name: ".gitignore", path: ".", module: RextModule::RextCore, needs_directory: false, source: "gitignore" },
            RextFileType::ReadmeMd => FileDescriptor { file_type: RextFileType::ReadmeMd, name: "README.md", path: ".", module: RextModule::RextCore, needs_directory: false, source: "README.md" },
            RextFileType::BuildRs => FileDescriptor { file_type: RextFileType::BuildRs, name: "build.rs", path: ".", module: RextModule::RextCore, needs_directory: false, source: "build.rs" },
            RextFileType::CargoToml => FileDescriptor { file_type: RextFileType::CargoToml, name: "Cargo.toml", path: ".", module: RextModule::RextCore, needs_directory: false, source: "Cargo.toml" },
            RextFileType::MainRs => FileDescriptor { file_type: RextFileType::MainRs, name: "main.rs", path: "backend", module: RextModule::RextCore, needs_directory: true, source: "backend/main.rs" },
            RextFileType::BridgeModRs => FileDescriptor { file_type: RextFileType::BridgeModRs, name: "mod.rs", path: "backend/bridge", module: RextModule::RextCore, needs_directory: true, source: "backend/bridge/mod.rs" },
            RextFileType::HandlersModRs => FileDescriptor { file_type: RextFileType::HandlersModRs, name: "mod.rs", path: "backend/bridge/handlers", module: RextModule::RextCore, needs_directory: true, source: "backend/bridge/handlers/mod.rs" },
            RextFileType::HanlderWebsocketRs => FileDescriptor { file_type: RextFileType::HanlderWebsocketRs, name: "websocket.rs", path: "backend/bridge/handlers", module: RextModule::RextCore, needs_directory: true, source: "backend/bridge/handlers/websocket.rs" },
            RextFileType::HandlersAdminRs => FileDescriptor { file_type: RextFileType::HandlersAdminRs, name: "admin.rs", path: "backend/bridge/handlers", module: RextModule::RextCore, needs_directory: true, source: "backend/bridge/handlers/admin.rs" },
            RextFileType::HandlersRolesRs => FileDescriptor { file_type: RextFileType::HandlersRolesRs, name: "roles.rs", path: "backend/bridge/handlers", module: RextModule::RextCore, needs_directory: true, source: "backend/bridge/handlers/roles.rs" },
            RextFileType::HandlersAuthRs => FileDescriptor { file_type: RextFileType::HandlersAuthRs, name: "auth.rs", path: "backend/bridge/handlers", module: RextModule::RextCore, needs_directory: true, source: "backend/bridge/handlers/auth.rs" },
            RextFileType::MiddlewareModRs => FileDescriptor { file_type: RextFileType::MiddlewareModRs, name: "mod.rs", path: "backend/bridge/middleware", module: RextModule::RextCore, needs_directory: true, source: "backend/bridge/middleware/mod.rs" },
            RextFileType::MiddlewareAuthRs => FileDescriptor { file_type: RextFileType::MiddlewareAuthRs, name: "auth.rs", path: "backend/bridge/middleware", module: RextModule::RextCore, needs_directory: true, source: "backend/bridge/middleware/auth.rs" },
            RextFileType::MiddlewareAdminRs => FileDescriptor { file_type: RextFileType::MiddlewareAdminRs, name: "admin.rs", path: "backend/bridge/middleware", module: RextModule::RextCore, needs_directory: true, source: "backend/bridge/middleware/admin.rs" },
            RextFileType::MiddlewareLoggingRs => FileDescriptor { file_type: RextFileType::MiddlewareLoggingRs, name: "logging.rs", path: "backend/bridge/middleware", module: RextModule::RextCore, needs_directory: true, source: "backend/bridge/middleware/logging.rs" },
            RextFileType::RoutesModRs => FileDescriptor { file_type: RextFileType::RoutesModRs, name: "mod.rs", path: "backend/bridge/routes", module: RextModule::RextCore, needs_directory: true, source: "backend/bridge/routes/mod.rs" },
            RextFileType::RoutesAdminRs => FileDescriptor { file_type: RextFileType::RoutesAdminRs, name: "admin.rs", path: "backend/bridge/routes", module: RextModule::RextCore, needs_directory: true, source: "backend/bridge/routes/admin.rs" },
            RextFileType::RoutesAuthRs => FileDescriptor { file_type: RextFileType::RoutesAuthRs, name: "auth.rs", path: "backend/bridge/routes", module: RextModule::RextCore, needs_directory: true, source: "backend/bridge/routes/auth.rs" },
            RextFileType::BridgeTypesModRs => FileDescriptor { file_type: RextFileType::BridgeTypesModRs, name: "mod.rs", path: "backend/bridge/types", module: RextModule::RextCore, needs_directory: true, source: "backend/bridge/types/mod.rs" },
            RextFileType::BridgeTypesAdminRs => FileDescriptor { file_type: RextFileType::BridgeTypesAdminRs, name: "admin.rs", path: "backend/bridge/types", module: RextModule::RextCore, needs_directory: true, source: "backend/bridge/types/admin.rs" },
            RextFileType::BridgeTypesAuthRs => FileDescriptor { file_type: RextFileType::BridgeTypesAuthRs, name: "auth.rs", path: "backend/bridge/types", module: RextModule::RextCore, needs_directory: true, source: "backend/bridge/types/auth.rs" },
            RextFileType::BridgeTypesLoggingRs => FileDescriptor { file_type: RextFileType::BridgeTypesLoggingRs, name: "logging.rs", path: "backend/bridge/types", module: RextModule::RextCore, needs_directory: true, source: "backend/bridge/types/logging.rs" },
            RextFileType::ControlModRs => FileDescriptor { file_type: RextFileType::ControlModRs, name: "mod.rs", path: "backend/control", module: RextModule::RextCore, needs_directory: true, source: "backend/control/mod.rs" },
            RextFileType::ServicesModRs => FileDescriptor { file_type: RextFileType::ServicesModRs, name: "mod.rs", path: "backend/control/services", module: RextModule::RextCore, needs_directory: true, source: "backend/control/services/mod.rs" },
            RextFileType::ServerConfigRs => FileDescriptor { file_type: RextFileType::ServerConfigRs, name: "server_config.rs", path: "backend/control/services", module: RextModule::RextCore, needs_directory: true, source: "backend/control/services/server_config.rs" },
            RextFileType::StartupRs => FileDescriptor { file_type: RextFileType::StartupRs, name: "startup.rs", path: "backend/control/services", module: RextModule::RextCore, needs_directory: true, source: "backend/control/services/startup.rs" },
            RextFileType::UserServiceRs => FileDescriptor { file_type: RextFileType::UserServiceRs, name: "user_service.rs", path: "backend/control/services", module: RextModule::RextCore, needs_directory: true, source: "backend/control/services/user_service.rs" },
            RextFileType::DatabaseServiceRs => FileDescriptor { file_type: RextFileType::DatabaseServiceRs, name: "database_service.rs", path: "backend/control/services", module: RextModule::RextCore, needs_directory: true, source: "backend/control/services/database_service.rs" },
            RextFileType::AdminServiceRs => FileDescriptor { file_type: RextFileType::AdminServiceRs, name: "admin_service.rs", path: "backend/control/services", module: RextModule::RextCore, needs_directory: true, source: "backend/control/services/admin_service.rs" },
            RextFileType::TokenServiceRs => FileDescriptor { file_type: RextFileType::TokenServiceRs, name: "token_service.rs", path: "backend/control/services", module: RextModule::RextCore, needs_directory: true, source: "backend/control/services/token_service.rs" },
            RextFileType::SessionServiceRs => FileDescriptor { file_type: RextFileType::SessionServiceRs, name: "session_service.rs", path: "backend/control/services", module: RextModule::RextCore, needs_directory: true, source: "backend/control/services/session_service.rs" },
            RextFileType::AuthServiceRs => FileDescriptor { file_type: RextFileType::AuthServiceRs, name: "auth_service.rs", path: "backend/control/services", module: RextModule::RextCore, needs_directory: true, source: "backend/control/services/auth_service.rs" },
            RextFileType::PermissionServiceRs => FileDescriptor { file_type: RextFileType::PermissionServiceRs, name: "permission_service.rs", path: "backend/control/services", module: RextModule::RextCore, needs_directory: true, source: "backend/control/services/permission_service.rs" },
            RextFileType::SystemMonitorServiceRs => FileDescriptor { file_type: RextFileType::SystemMonitorServiceRs, name: "system_monitor.rs", path: "backend/control/services", module: RextModule::RextCore, needs_directory: true, source: "backend/control/services/system_monitor.rs" },
            RextFileType::DomainModRs => FileDescriptor { file_type: RextFileType::DomainModRs, name: "mod.rs", path: "backend/domain", module: RextModule::RextCore, needs_directory: true, source: "backend/domain/mod.rs" },
            RextFileType::DomainPermissionsRs => FileDescriptor { file_type: RextFileType::DomainPermissionsRs, name: "permissions.rs", path: "backend/domain", module: RextModule::RextCore, needs_directory: true, source: "backend/domain/permissions.rs" },
            RextFileType::DomainUserRs => FileDescriptor { file_type: RextFileType::DomainUserRs, name: "user.rs", path: "backend/domain", module: RextModule::RextCore, needs_directory: true, source: "backend/domain/user.rs" },
            RextFileType::DomainValidationRs => FileDescriptor { file_type: RextFileType::DomainValidationRs, name: "validation.rs", path: "backend/domain", module: RextModule::RextCore, needs_directory: true, source: "backend/domain/validation.rs" },
            RextFileType::DomainAuthRs => FileDescriptor { file_type: RextFileType::DomainAuthRs, name: "auth.rs", path: "backend/domain", module: RextModule::RextCore, needs_directory: true, source: "backend/domain/auth.rs" },
            RextFileType::EntityModRs => FileDescriptor { file_type: RextFileType::EntityModRs, name: "mod.rs", path: "backend/entity", module: RextModule::RextCore, needs_directory: true, source: "backend/entity/mod.rs" },
            RextFileType::InfrastructureModRs => FileDescriptor { file_type: RextFileType::InfrastructureModRs, name: "mod.rs", path: "backend/infrastructure", module: RextModule::RextCore, needs_directory: true, source: "backend/infrastructure/mod.rs" },
            RextFileType::InfrastructureJobQueueRs => FileDescriptor { file_type: RextFileType::InfrastructureJobQueueRs, name: "job_queue.rs", path: "backend/infrastructure", module: RextModule::RextCore, needs_directory: true, source: "backend/infrastructure/job_queue.rs" },
            RextFileType::InfrastructureLoggingRs => FileDescriptor { file_type: RextFileType::InfrastructureLoggingRs, name: "logging.rs", path: "backend/infrastructure", module: RextModule::RextCore, needs_directory: true, source: "backend/infrastructure/logging.rs" },
            RextFileType::InfrastructureSchedulerRs => FileDescriptor { file_type: RextFileType::InfrastructureSchedulerRs, name: "scheduler.rs", path: "backend/infrastructure", module: RextModule::RextCore, needs_directory: true, source: "backend/infrastructure/scheduler.rs" },
            RextFileType::InfrastructureWebsocketRs => FileDescriptor { file_type: RextFileType::InfrastructureWebsocketRs, name: "websocket.rs", path: "backend/infrastructure", module: RextModule::RextCore, needs_directory: true, source: "backend/infrastructure/websocket.rs" },
            RextFileType::InfrastructureAppErrorRs => FileDescriptor { file_type: RextFileType::InfrastructureAppErrorRs, name: "app_error.rs", path: "backend/infrastructure", module: RextModule::RextCore, needs_directory: true, source: "backend/infrastructure/app_error.rs" },
            RextFileType::InfrastructureEmailRs => FileDescriptor { file_type: RextFileType::InfrastructureEmailRs, name: "email.rs", path: "backend/infrastructure", module: RextModule::RextCore, needs_directory: true, source: "backend/infrastructure/email.rs" },
            RextFileType::InfrastructureDatabaseRs => FileDescriptor { file_type: RextFileType::InfrastructureDatabaseRs, name: "database.rs", path: "backend/infrastructure", module: RextModule::RextCore, needs_directory: true, source: "backend/infrastructure/database.rs" },
            RextFileType::InfrastructureQueryPerformanceRs => FileDescriptor { file_type: RextFileType::InfrastructureQueryPerformanceRs, name: "query_performance.rs", path: "backend/infrastructure", module: RextModule::RextCore, needs_directory: true, source: "backend/infrastructure/query_performance.rs" },
            RextFileType::InfrastructureServerRs => FileDescriptor { file_type: RextFileType::InfrastructureServerRs, name: "server.rs", path: "backend/infrastructure", module: RextModule::RextCore, needs_directory: true, source: "backend/infrastructure/server.rs" },
            RextFileType::InfrastructureCorsRs => FileDescriptor { file_type: RextFileType::InfrastructureCorsRs, name: "cors.rs", path: "backend/infrastructure", module: RextModule::RextCore, needs_directory: true, source: "backend/infrastructure/cors.rs" },
            RextFileType::InfrastructureOpenApiRs => FileDescriptor { file_type: RextFileType::InfrastructureOpenApiRs, name: "openapi.rs", path: "backend/infrastructure", module: RextModule::RextCore, needs_directory: true, source: "backend/infrastructure/openapi.rs" },
            RextFileType::InfrastructureJwtClaimsRs => FileDescriptor { file_type: RextFileType::InfrastructureJwtClaimsRs, name: "jwt_claims.rs", path: "backend/infrastructure", module: RextModule::RextCore, needs_directory: true, source: "backend/infrastructure/jwt_claims.rs" },
            RextFileType::MacrosModRs => FileDescriptor { file_type: RextFileType::MacrosModRs, name: "mod.rs", path: "backend/infrastructure/macros", module: RextModule::RextCore, needs_directory: true, source: "backend/infrastructure/macros/mod.rs" },
            RextFileType::PermissionMacroRs => FileDescriptor { file_type: RextFileType::PermissionMacroRs, name: "permission_macro.rs", path: "backend/infrastructure/macros", module: RextModule::RextCore, needs_directory: true, source: "backend/infrastructure/macros/permission_macro.rs" },
            RextFileType::PackageJson => FileDescriptor { file_type: RextFileType::PackageJson, name: "package.json", path: "frontend", module: RextModule::RextCore, needs_directory: true, source: "frontend/package.json" },
            RextFileType::ViteConfigTs => FileDescriptor { file_type: RextFileType::ViteConfigTs, name: "vite.config.ts", path: "frontend", module: RextModule::RextCore, needs_directory: true, source: "frontend/vite.config.ts" },
            RextFileType::UnifiedConfigTs => FileDescriptor { file_type: RextFileType::UnifiedConfigTs, name: "unified.config.ts", path: "frontend/config", module: RextModule::RextCore, needs_directory: true, source: "frontend/config/unified.config.ts" },
            RextFileType::OpenApiConfigTs => FileDescriptor { file_type: RextFileType::OpenApiConfigTs, name: "openapi-ts.config.ts", path: "frontend", module: RextModule::RextCore, needs_directory: true, source: "frontend/openapi-ts.config.ts" },
            RextFileType::TsConfigTs => FileDescriptor { file_type: RextFileType::TsConfigTs, name: "tsconfig.json", path: "frontend", module: RextModule::RextCore, needs_directory: true, source: "frontend/tsconfig.json" },
            RextFileType::MigrationLibRs => FileDescriptor { file_type: RextFileType::MigrationLibRs, name: "lib.rs", path: "migration/src", module: RextModule::RextCore, needs_directory: true, source: "migration/src/lib.rs" },
            RextFileType::MigrationMainRs => FileDescriptor { file_type: RextFileType::MigrationMainRs, name: "main.rs", path: "migration/src", module: RextModule::RextCore, needs_directory: true, source: "migration/src/main.rs" },
            RextFileType::InitialMigrationRs => FileDescriptor { file_type: RextFileType::InitialMigrationRs, name: "initial_migration.rs", path: "migration/src", module: RextModule::RextCore, needs_directory: true, source: "migration/src/initial_migration.rs" },
            RextFileType::MigrationCargoToml => FileDescriptor { file_type: RextFileType::MigrationCargoToml, name: "Cargo.toml", path: "migration", module: RextModule::RextCore, needs_directory: true, source: "migration/Cargo.toml" },
        }
    }
}

/// The catalog, in its fixed order.
pub open spec fn catalog_spec() -> Seq<FileDescriptor> {
    seq![
        RextFileType::RextConfig.spec_descriptor(),
        RextFileType::ExampleEnv.spec_descriptor(),
        RextFileType::DockerComposeYml.spec_descriptor(),
        RextFileType::DockerIgnore.spec_descriptor(),
        RextFileType::Dockerfile.spec_descriptor(),
        RextFileType::GitIgnore.spec_descriptor(),
        RextFileType::ReadmeMd.spec_descriptor(),
        RextFileType::BuildRs.spec_descriptor(),
        RextFileType::CargoToml.spec_descriptor(),
        RextFileType::MainRs.spec_descriptor(),
        RextFileType::BridgeModRs.spec_descriptor(),
        RextFileType::HandlersModRs.spec_descriptor(),
        RextFileType::HanlderWebsocketRs.spec_descriptor(),
        RextFileType::HandlersAdminRs.spec_descriptor(),
        RextFileType::HandlersRolesRs.spec_descriptor(),
        RextFileType::HandlersAuthRs.spec_descriptor(),
        RextFileType::MiddlewareModRs.spec_descriptor(),
        RextFileType::MiddlewareAuthRs.spec_descriptor(),
        RextFileType::MiddlewareAdminRs.spec_descriptor(),
        RextFileType::MiddlewareLoggingRs.spec_descriptor(),
        RextFileType::RoutesModRs.spec_descriptor(),
        RextFileType::RoutesAdminRs.spec_descriptor(),
        RextFileType::RoutesAuthRs.spec_descriptor(),
        RextFileType::BridgeTypesModRs.spec_descriptor(),
        RextFileType::BridgeTypesAdminRs.spec_descriptor(),
        RextFileType::BridgeTypesAuthRs.spec_descriptor(),
        RextFileType::BridgeTypesLoggingRs.spec_descriptor(),
        RextFileType::ControlModRs.spec_descriptor(),
        RextFileType::ServicesModRs.spec_descriptor(),
        RextFileType::ServerConfigRs.spec_descriptor(),
        RextFileType::StartupRs.spec_descriptor(),
        RextFileType::UserServiceRs.spec_descriptor(),
        RextFileType::DatabaseServiceRs.spec_descriptor(),
        RextFileType::AdminServiceRs.spec_descriptor(),
        RextFileType::TokenServiceRs.spec_descriptor(),
        RextFileType::SessionServiceRs.spec_descriptor(),
        RextFileType::AuthServiceRs.spec_descriptor(),
        RextFileType::PermissionServiceRs.spec_descriptor(),
        RextFileType::SystemMonitorServiceRs.spec_descriptor(),
        RextFileType::DomainModRs.spec_descriptor(),
        RextFileType::DomainPermissionsRs.spec_descriptor(),
        RextFileType::DomainUserRs.spec_descriptor(),
        RextFileType::DomainValidationRs.spec_descriptor(),
        RextFileType::DomainAuthRs.spec_descriptor(),
        RextFileType::EntityModRs.spec_descriptor(),
        RextFileType::InfrastructureModRs.spec_descriptor(),
        RextFileType::InfrastructureJobQueueRs.spec_descriptor(),
        RextFileType::InfrastructureLoggingRs.spec_descriptor(),
        RextFileType::InfrastructureSchedulerRs.spec_descriptor(),
        RextFileType::InfrastructureWebsocketRs.spec_descriptor(),
        RextFileType::InfrastructureAppErrorRs.spec_descriptor(),
        RextFileType::InfrastructureEmailRs.spec_descriptor(),
        RextFileType::InfrastructureDatabaseRs.spec_descriptor(),
        RextFileType::InfrastructureQueryPerformanceRs.spec_descriptor(),
        RextFileType::InfrastructureServerRs.spec_descriptor(),
        RextFileType::InfrastructureCorsRs.spec_descriptor(),
        RextFileType::InfrastructureOpenApiRs.spec_descriptor(),
        RextFileType::InfrastructureJwtClaimsRs.spec_descriptor(),
        RextFileType::MacrosModRs.spec_descriptor(),
        RextFileType::PermissionMacroRs.spec_descriptor(),
        RextFileType::PackageJson.spec_descriptor(),
        RextFileType::ViteConfigTs.spec_descriptor(),
        RextFileType::UnifiedConfigTs.spec_descriptor(),
        RextFileType::OpenApiConfigTs.spec_descriptor(),
        RextFileType::TsConfigTs.spec_descriptor(),
        RextFileType::MigrationLibRs.spec_descriptor(),
        RextFileType::MigrationMainRs.spec_descriptor(),
        RextFileType::InitialMigrationRs.spec_descriptor(),
        RextFileType::MigrationCargoToml.spec_descriptor(),
    ]
}

/// The number of entries in the catalog.
pub const CATALOG_LEN: usize = 69;

/// The full catalog of generatable files, in its fixed order. Each file type
/// appears exactly once.
#[verifier::rlimit(50)]
pub fn catalog() -> (r: Vec<FileDescriptor>)
    ensures
        r@ == catalog_spec(),
        r.len() == CATALOG_LEN,
        forall|i: int, j: int|
            0 <= i < j < r.len() ==> #[trigger] r@[i].file_type != #[trigger] r@[j].file_type,
        forall|t: RextFileType| #[trigger] t.catalog_position() < r.len() && r@[t.catalog_position()].file_type == t,
{
    let r = vec![
        RextFileType::RextConfig.descriptor(),
        RextFileType::ExampleEnv.descriptor(),
        RextFileType::DockerComposeYml.descriptor(),
        RextFileType::DockerIgnore.descriptor(),
        RextFileType::Dockerfile.descriptor(),
        RextFileType::GitIgnore.descriptor(),
        RextFileType::ReadmeMd.descriptor(),
        RextFileType::BuildRs.descriptor(),
        RextFileType::CargoToml.descriptor(),
        RextFileType::MainRs.descriptor(),
        RextFileType::BridgeModRs.descriptor(),
        RextFileType::HandlersModRs.descriptor(),
        RextFileType::HanlderWebsocketRs.descriptor(),
        RextFileType::HandlersAdminRs.descriptor(),
        RextFileType::HandlersRolesRs.descriptor(),
        RextFileType::HandlersAuthRs.descriptor(),
        RextFileType::MiddlewareModRs.descriptor(),
        RextFileType::MiddlewareAuthRs.descriptor(),
        RextFileType::MiddlewareAdminRs.descriptor(),
        RextFileType::MiddlewareLoggingRs.descriptor(),
        RextFileType::RoutesModRs.descriptor(),
        RextFileType::RoutesAdminRs.descriptor(),
        RextFileType::RoutesAuthRs.descriptor(),
        RextFileType::BridgeTypesModRs.descriptor(),
        RextFileType::BridgeTypesAdminRs.descriptor(),
        RextFileType::BridgeTypesAuthRs.descriptor(),
        RextFileType::BridgeTypesLoggingRs.descriptor(),
        RextFileType::ControlModRs.descriptor(),
        RextFileType::ServicesModRs.descriptor(),
        RextFileType::ServerConfigRs.descriptor(),
        RextFileType::StartupRs.descriptor(),
        RextFileType::UserServiceRs.descriptor(),
        RextFileType::DatabaseServiceRs.descriptor(),
        RextFileType::AdminServiceRs.descriptor(),
        RextFileType::TokenServiceRs.descriptor(),
        RextFileType::SessionServiceRs.descriptor(),
        RextFileType::AuthServiceRs.descriptor(),
        RextFileType::PermissionServiceRs.descriptor(),
        RextFileType::SystemMonitorServiceRs.descriptor(),
        RextFileType::DomainModRs.descriptor(),
        RextFileType::DomainPermissionsRs.descriptor(),
        RextFileType::DomainUserRs.descriptor(),
        RextFileType::DomainValidationRs.descriptor(),
        RextFileType::DomainAuthRs.descriptor(),
        RextFileType::EntityModRs.descriptor(),
        RextFileType::InfrastructureModRs.descriptor(),
        RextFileType::InfrastructureJobQueueRs.descriptor(),
        RextFileType::InfrastructureLoggingRs.descriptor(),
        RextFileType::InfrastructureSchedulerRs.descriptor(),
        RextFileType::InfrastructureWebsocketRs.descriptor(),
        RextFileType::InfrastructureAppErrorRs.descriptor(),
        RextFileType::InfrastructureEmailRs.descriptor(),
        RextFileType::InfrastructureDatabaseRs.descriptor(),
        RextFileType::InfrastructureQueryPerformanceRs.descriptor(),
        RextFileType::InfrastructureServerRs.descriptor(),
        RextFileType::InfrastructureCorsRs.descriptor(),
        RextFileType::InfrastructureOpenApiRs.descriptor(),
        RextFileType::InfrastructureJwtClaimsRs.descriptor(),
        RextFileType::MacrosModRs.descriptor(),
        RextFileType::PermissionMacroRs.descriptor(),
        RextFileType::PackageJson.descriptor(),
        RextFileType::ViteConfigTs.descriptor(),
        RextFileType::UnifiedConfigTs.descriptor(),
        RextFileType::OpenApiConfigTs.descriptor(),
        RextFileType::TsConfigTs.descriptor(),
        RextFileType::MigrationLibRs.descriptor(),
        RextFileType::MigrationMainRs.descriptor(),
        RextFileType::InitialMigrationRs.descriptor(),
        RextFileType::MigrationCargoToml.descriptor(),
    ];
    assert(r@ =~= catalog_spec());
    assert(r@[0].file_type.catalog_position() == 0);
    assert(r@[1].file_type.catalog_position() == 1);
    assert(r@[2].file_type.catalog_position() == 2);
    assert(r@[3].file_type.catalog_position() == 3);
    assert(r@[4].file_type.catalog_position() == 4);
    assert(r@[5].file_type.catalog_position() == 5);
    assert(r@[6].file_type.catalog_position() == 6);
    assert(r@[7].file_type.catalog_position() == 7);
    assert(r@[8].file_type.catalog_position() == 8);
    assert(r@[9].file_type.catalog_position() == 9);
    assert(r@[10].file_type.catalog_position() == 10);
    assert(r@[11].file_type.catalog_position() == 11);
    assert(r@[12].file_type.catalog_position() == 12);
    assert(r@[13].file_type.catalog_position() == 13);
    assert(r@[14].file_type.catalog_position() == 14);
    assert(r@[15].file_type.catalog_position() == 15);
    assert(r@[16].file_type.catalog_position() == 16);
    assert(r@[17].file_type.catalog_position() == 17);
    assert(r@[18].file_type.catalog_position() == 18);
    assert(r@[19].file_type.catalog_position() == 19);
    assert(r@[20].file_type.catalog_position() == 20);
    assert(r@[21].file_type.catalog_position() == 21);
    assert(r@[22].file_type.catalog_position() == 22);
    assert(r@[23].file_type.catalog_position() == 23);
    assert(r@[24].file_type.catalog_position() == 24);
    assert(r@[25].file_type.catalog_position() == 25);
    assert(r@[26].file_type.catalog_position() == 26);
    assert(r@[27].file_type.catalog_position() == 27);
    assert(r@[28].file_type.catalog_position() == 28);
    assert(r@[29].file_type.catalog_position() == 29);
    assert(r@[30].file_type.catalog_position() == 30);
    assert(r@[31].file_type.catalog_position() == 31);
    assert(r@[32].file_type.catalog_position() == 32);
    assert(r@[33].file_type.catalog_position() == 33);
    assert(r@[34].file_type.catalog_position() == 34);
    assert(r@[35].file_type.catalog_position() == 35);
    assert(r@[36].file_type.catalog_position() == 36);
    assert(r@[37].file_type.catalog_position() == 37);
    assert(r@[38].file_type.catalog_position() == 38);
    assert(r@[39].file_type.catalog_position() == 39);
    assert(r@[40].file_type.catalog_position() == 40);
    assert(r@[41].file_type.catalog_position() == 41);
    assert(r@[42].file_type.catalog_position() == 42);
    assert(r@[43].file_type.catalog_position() == 43);
    assert(r@[44].file_type.catalog_position() == 44);
    assert(r@[45].file_type.catalog_position() == 45);
    assert(r@[46].file_type.catalog_position() == 46);
    assert(r@[47].file_type.catalog_position() == 47);
    assert(r@[48].file_type.catalog_position() == 48);
    assert(r@[49].file_type.catalog_position() == 49);
    assert(r@[50].file_type.catalog_position() == 50);
    assert(r@[51].file_type.catalog_position() == 51);
    assert(r@[52].file_type.catalog_position() == 52);
    assert(r@[53].file_type.catalog_position() == 53);
    assert(r@[54].file_type.catalog_position() == 54);
    assert(r@[55].file_type.catalog_position() == 55);
    assert(r@[56].file_type.catalog_position() == 56);
    assert(r@[57].file_type.catalog_position() == 57);
    assert(r@[58].file_type.catalog_position() == 58);
    assert(r@[59].file_type.catalog_position() == 59);
    assert(r@[60].file_type.catalog_position() == 60);
    assert(r@[61].file_type.catalog_position() == 61);
    assert(r@[62].file_type.catalog_position() == 62);
    assert(r@[63].file_type.catalog_position() == 63);
    assert(r@[64].file_type.catalog_position() == 64);
    assert(r@[65].file_type.catalog_position() == 65);
    assert(r@[66].file_type.catalog_position() == 66);
    assert(r@[67].file_type.catalog_position() == 67);
    assert(r@[68].file_type.catalog_position() == 68);
    assert forall|t: RextFileType| #[trigger] t.catalog_position() < r.len() && r@[t.catalog_position()].file_type == t by {
        match t {
            RextFileType::RextConfig => { assert(r@[0].file_type == t); }
            RextFileType::ExampleEnv => { assert(r@[1].file_type == t); }
            RextFileType::DockerComposeYml => { assert(r@[2].file_type == t); }
            RextFileType::DockerIgnore => { assert(r@[3].file_type == t); }
            RextFileType::Dockerfile => { assert(r@[4].file_type == t); }
            RextFileType::GitIgnore => { assert(r@[5].file_type == t); }
            RextFileType::ReadmeMd => { assert(r@[6].file_type == t); }
            RextFileType::BuildRs => { assert(r@[7].file_type == t); }
            RextFileType::CargoToml => { assert(r@[8].file_type == t); }
            RextFileType::MainRs => { assert(r@[9].file_type == t); }
            RextFileType::BridgeModRs => { assert(r@[10].file_type == t); }
            RextFileType::HandlersModRs => { assert(r@[11].file_type == t); }
            RextFileType::HanlderWebsocketRs => { assert(r@[12].file_type == t); }
            RextFileType::HandlersAdminRs => { assert(r@[13].file_type == t); }
            RextFileType::HandlersRolesRs => { assert(r@[14].file_type == t); }
            RextFileType::HandlersAuthRs => { assert(r@[15].file_type == t); }
            RextFileType::MiddlewareModRs => { assert(r@[16].file_type == t); }
            RextFileType::MiddlewareAuthRs => { assert(r@[17].file_type == t); }
            RextFileType::MiddlewareAdminRs => { assert(r@[18].file_type == t); }
            RextFileType::MiddlewareLoggingRs => { assert(r@[19].file_type == t); }
            RextFileType::RoutesModRs => { assert(r@[20].file_type == t); }
            RextFileType::RoutesAdminRs => { assert(r@[21].file_type == t); }
            RextFileType::RoutesAuthRs => { assert(r@[22].file_type == t); }
            RextFileType::BridgeTypesModRs => { assert(r@[23].file_type == t); }
            RextFileType::BridgeTypesAdminRs => { assert(r@[24].file_type == t); }
            RextFileType::BridgeTypesAuthRs => { assert(r@[25].file_type == t); }
            RextFileType::BridgeTypesLoggingRs => { assert(r@[26].file_type == t); }
            RextFileType::ControlModRs => { assert(r@[27].file_type == t); }
            RextFileType::ServicesModRs => { assert(r@[28].file_type == t); }
            RextFileType::ServerConfigRs => { assert(r@[29].file_type == t); }
            RextFileType::StartupRs => { assert(r@[30].file_type == t); }
            RextFileType::UserServiceRs => { assert(r@[31].file_type == t); }
            RextFileType::DatabaseServiceRs => { assert(r@[32].file_type == t); }
            RextFileType::AdminServiceRs => { assert(r@[33].file_type == t); }
            RextFileType::TokenServiceRs => { assert(r@[34].file_type == t); }
            RextFileType::SessionServiceRs => { assert(r@[35].file_type == t); }
            RextFileType::AuthServiceRs => { assert(r@[36].file_type == t); }
            RextFileType::PermissionServiceRs => { assert(r@[37].file_type == t); }
            RextFileType::SystemMonitorServiceRs => { assert(r@[38].file_type == t); }
            RextFileType::DomainModRs => { assert(r@[39].file_type == t); }
            RextFileType::DomainPermissionsRs => { assert(r@[40].file_type == t); }
            RextFileType::DomainUserRs => { assert(r@[41].file_type == t); }
            RextFileType::DomainValidationRs => { assert(r@[42].file_type == t); }
            RextFileType::DomainAuthRs => { assert(r@[43].file_type == t); }
            RextFileType::EntityModRs => { assert(r@[44].file_type == t); }
            RextFileType::InfrastructureModRs => { assert(r@[45].file_type == t); }
            RextFileType::InfrastructureJobQueueRs => { assert(r@[46].file_type == t); }
            RextFileType::InfrastructureLoggingRs => { assert(r@[47].file_type == t); }
            RextFileType::InfrastructureSchedulerRs => { assert(r@[48].file_type == t); }
            RextFileType::InfrastructureWebsocketRs => { assert(r@[49].file_type == t); }
            RextFileType::InfrastructureAppErrorRs => { assert(r@[50].file_type == t); }
            RextFileType::InfrastructureEmailRs => { assert(r@[51].file_type == t); }
            RextFileType::InfrastructureDatabaseRs => { assert(r@[52].file_type == t); }
            RextFileType::InfrastructureQueryPerformanceRs => { assert(r@[53].file_type == t); }
            RextFileType::InfrastructureServerRs => { assert(r@[54].file_type == t); }
            RextFileType::InfrastructureCorsRs => { assert(r@[55].file_type == t); }
            RextFileType::InfrastructureOpenApiRs => { assert(r@[56].file_type == t); }
            RextFileType::InfrastructureJwtClaimsRs => { assert(r@[57].file_type == t); }
            RextFileType::MacrosModRs => { assert(r@[58].file_type == t); }
            RextFileType::PermissionMacroRs => { assert(r@[59].file_type == t); }
            RextFileType::PackageJson => { assert(r@[60].file_type == t); }
            RextFileType::ViteConfigTs => { assert(r@[61].file_type == t); }
            RextFileType::UnifiedConfigTs => { assert(r@[62].file_type == t); }
            RextFileType::OpenApiConfigTs => { assert(r@[63].file_type == t); }
            RextFileType::TsConfigTs => { assert(r@[64].file_type == t); }
            RextFileType::MigrationLibRs => { assert(r@[65].file_type == t); }
            RextFileType::MigrationMainRs => { assert(r@[66].file_type == t); }
            RextFileType::InitialMigrationRs => { assert(r@[67].file_type == t); }
            RextFileType::MigrationCargoToml => { assert(r@[68].file_type == t); }
        }
    }
    assert forall|i: int, j: int|
        0 <= i < j < r.len() implies #[trigger] r@[i].file_type != #[trigger] r@[j].file_type by {
        assert(r@[i].file_type.catalog_position() == i) by {
            lemma_position_of_entry(r@, i);
        }
        assert(r@[j].file_type.catalog_position() == j) by {
            lemma_position_of_entry(r@, j);
        }
    }
    r
}

proof fn lemma_position_of_entry(s: Seq<FileDescriptor>, i: int)
    requires
        s == catalog_spec(),
        0 <= i < s.len(),
    ensures
        s[i].file_type.catalog_position() == i,
{
    assert(s[0].file_type.catalog_position() == 0);
    assert(s[1].file_type.catalog_position() == 1);
    assert(s[2].file_type.catalog_position() == 2);
    assert(s[3].file_type.catalog_position() == 3);
    assert(s[4].file_type.catalog_position() == 4);
    assert(s[5].file_type.catalog_position() == 5);
    assert(s[6].file_type.catalog_position() == 6);
    assert(s[7].file_type.catalog_position() == 7);
    assert(s[8].file_type.catalog_position() == 8);
    assert(s[9].file_type.catalog_position() == 9);
    assert(s[10].file_type.catalog_position() == 10);
    assert(s[11].file_type.catalog_position() == 11);
    assert(s[12].file_type.catalog_position() == 12);
    assert(s[13].file_type.catalog_position() == 13);
    assert(s[14].file_type.catalog_position() == 14);
    assert(s[15].file_type.catalog_position() == 15);
    assert(s[16].file_type.catalog_position() == 16);
    assert(s[17].file_type.catalog_position() == 17);
    assert(s[18].file_type.catalog_position() == 18);
    assert(s[19].file_type.catalog_position() == 19);
    assert(s[20].file_type.catalog_position() == 20);
    assert(s[21].file_type.catalog_position() == 21);
    assert(s[22].file_type.catalog_position() == 22);
    assert(s[23].file_type.catalog_position() == 23);
    assert(s[24].file_type.catalog_position() == 24);
    assert(s[25].file_type.catalog_position() == 25);
    assert(s[26].file_type.catalog_position() == 26);
    assert(s[27].file_type.catalog_position() == 27);
    assert(s[28].file_type.catalog_position() == 28);
    assert(s[29].file_type.catalog_position() == 29);
    assert(s[30].file_type.catalog_position() == 30);
    assert(s[31].file_type.catalog_position() == 31);
    assert(s[32].file_type.catalog_position() == 32);
    assert(s[33].file_type.catalog_position() == 33);
    assert(s[34].file_type.catalog_position() == 34);
    assert(s[35].file_type.catalog_position() == 35);
    assert(s[36].file_type.catalog_position() == 36);
    assert(s[37].file_type.catalog_position() == 37);
    assert(s[38].file_type.catalog_position() == 38);
    assert(s[39].file_type.catalog_position() == 39);
    assert(s[40].file_type.catalog_position() == 40);
    assert(s[41].file_type.catalog_position() == 41);
    assert(s[42].file_type.catalog_position() == 42);
    assert(s[43].file_type.catalog_position() == 43);
    assert(s[44].file_type.catalog_position() == 44);
    assert(s[45].file_type.catalog_position() == 45);
    assert(s[46].file_type.catalog_position() == 46);
    assert(s[47].file_type.catalog_position() == 47);
    assert(s[48].file_type.catalog_position() == 48);
    assert(s[49].file_type.catalog_position() == 49);
    assert(s[50].file_type.catalog_position() == 50);
    assert(s[51].file_type.catalog_position() == 51);
    assert(s[52].file_type.catalog_position() == 52);
    assert(s[53].file_type.catalog_position() == 53);
    assert(s[54].file_type.catalog_position() == 54);
    assert(s[55].file_type.catalog_position() == 55);
    assert(s[56].file_type.catalog_position() == 56);
    assert(s[57].file_type.catalog_position() == 57);
    assert(s[58].file_type.catalog_position() == 58);
    assert(s[59].file_type.catalog_position() == 59);
    assert(s[60].file_type.catalog_position() == 60);
    assert(s[61].file_type.catalog_position() == 61);
    assert(s[62].file_type.catalog_position() == 62);
    assert(s[63].file_type.catalog_position() == 63);
    assert(s[64].file_type.catalog_position() == 64);
    assert(s[65].file_type.catalog_position() == 65);
    assert(s[66].file_type.catalog_position() == 66);
    assert(s[67].file_type.catalog_position() == 67);
    assert(s[68].file_type.catalog_position() == 68);
}

} // verus!
